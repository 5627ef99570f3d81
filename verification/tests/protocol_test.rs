use telepair::protocol::error_codes;
use telepair::protocol::{close_code_for, CLOSE_CODE_TERMINAL, CLOSE_CODE_TRANSIENT};

#[test]
fn storage_error_uses_transient_close_code() {
    assert_eq!(
        close_code_for(error_codes::STORAGE_ERROR),
        CLOSE_CODE_TRANSIENT,
        "STORAGE_ERROR is transient — must not use the terminal close code"
    );
    assert_ne!(
        CLOSE_CODE_TRANSIENT, CLOSE_CODE_TERMINAL,
        "transient and terminal close codes must be distinct or the client cannot tell them apart"
    );
}

#[test]
fn permanent_errors_use_terminal_close_code() {
    for code in [
        error_codes::AUTH_FAILED,
        error_codes::AUTH_TIMEOUT,
        error_codes::EXPECTED_JOIN,
        error_codes::SESSION_NOT_FOUND,
        error_codes::SESSION_CLOSED,
        error_codes::NOT_PARTICIPANT,
        error_codes::TARGET_NOT_FOUND,
        error_codes::PTY_ERROR,
    ] {
        assert_eq!(
            close_code_for(code),
            CLOSE_CODE_TERMINAL,
            "{code} must be terminal so the client does not reconnect-loop"
        );
    }
}

#[test]
fn close_code_values() {
    assert_eq!(CLOSE_CODE_TERMINAL, 4001);
    assert_eq!(CLOSE_CODE_TRANSIENT, 4503);
    assert_eq!(close_code_for("SOMETHING_ELSE"), CLOSE_CODE_TERMINAL);
}
