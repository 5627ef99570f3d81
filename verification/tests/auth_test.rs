use telepair::auth::{
    generate_otp, generate_token, hash_password, new_id, normalize_email, otp_from,
    parse_user_id, random_guest_name, token_sha256, user_id_text, verify_password,
};
use telepair::auth_service::{
    change_password_plan, check_password, login_answer, login_verdict, LoginVerdict,
    GENERIC_AUTH_ERROR,
};
use telepair::error::Error;
use telepair::session::UserId;

fn is_id_char(c: char) -> bool {
    c.is_ascii_alphanumeric() || c == '_' || c == '-'
}

#[test]
fn token_sha256_is_deterministic() {
    let a = token_sha256("test-token");
    let b = token_sha256("test-token");
    assert_eq!(a, b);
    assert_ne!(token_sha256("other"), a);
}

#[test]
fn token_sha256_known_value() {
    assert_eq!(
        token_sha256("abc"),
        "ba7816bf8f01cfea414140de5dae2223b00361a396177a9cb410ff61f20015ad"
    );
}

#[test]
fn generated_token_is_stored_by_its_digest() {
    let (raw, digest) = generate_token();
    assert_eq!(raw.chars().count(), 32);
    assert!(raw.chars().all(is_id_char));
    assert_eq!(digest, token_sha256(&raw));
}

#[test]
fn guest_names_and_ids_have_their_shape() {
    let g = random_guest_name();
    assert!(g.starts_with("guest-"));
    assert_eq!(g.chars().count(), 14);
    assert!(g[6..].chars().all(is_id_char));
    let id = new_id(21);
    assert_eq!(id.chars().count(), 21);
    assert!(id.chars().all(is_id_char));
}

#[test]
fn otp_is_six_digits() {
    assert_eq!(otp_from(42), "000042");
    assert_eq!(otp_from(1_000_000), "000000");
    assert_eq!(otp_from(4_294_967_295), "967295");
    let code = generate_otp();
    assert_eq!(code.len(), 6);
    assert!(code.chars().all(|c| c.is_ascii_digit()));
}

#[test]
fn user_ids_print_and_parse_as_uuids() {
    let id = UserId(0x67e5504410b1426f9247bb680e5fe0c8);
    let text = user_id_text(id);
    assert_eq!(text, "67e55044-10b1-426f-9247-bb680e5fe0c8");
    assert_eq!(parse_user_id(&text), Some(id));
    assert_eq!(parse_user_id("not-a-uuid"), None);
    assert_eq!(user_id_text(UserId(0)), "00000000-0000-0000-0000-000000000000");
}

#[test]
fn emails_are_lower_cased() {
    assert_eq!(normalize_email("Alice@Example.COM"), "alice@example.com");
}

#[test]
fn password_round_trip_and_login_verdicts() {
    let hash = hash_password("hunter2a").unwrap();
    assert!(verify_password("hunter2a", &hash).is_ok());
    assert!(matches!(
        verify_password("wrong", &hash),
        Err(Error::Auth(m)) if m == "invalid credentials"
    ));
    assert!(matches!(verify_password("x", "not a phc string"), Err(Error::Internal(_))));

    let stored = Some(hash.clone());
    assert!(check_password("hunter2a", &stored));
    assert!(!check_password("hunter2a", &None));
    assert_eq!(login_verdict(true, None, "hunter2a", &stored), LoginVerdict::Accepted);
    assert_eq!(login_verdict(true, None, "nope", &stored), LoginVerdict::BadPassword);
    assert_eq!(login_verdict(true, None, "hunter2a", &None), LoginVerdict::BadPassword);
    assert_eq!(
        login_verdict(true, Some(99), "hunter2a", &stored),
        LoginVerdict::Locked { until: 99 }
    );
    assert_eq!(login_verdict(false, None, "hunter2a", &stored), LoginVerdict::UnknownEmail);

    let new_hash = change_password_plan("hunter2a", "correct horse", &stored).unwrap();
    assert!(verify_password("correct horse", &new_hash).is_ok());
    assert!(matches!(
        change_password_plan("wrong", "x", &stored),
        Err(Error::Auth(m)) if m == "Current password is incorrect."
    ));
    assert!(matches!(
        change_password_plan("x", "y", &None),
        Err(Error::InvalidInput(m)) if m == "This account does not use password authentication."
    ));
}

#[test]
fn refusals_all_answer_the_generic_error() {
    for v in [
        LoginVerdict::UnknownEmail,
        LoginVerdict::Locked { until: 5 },
        LoginVerdict::BadPassword,
    ] {
        match login_answer(v, "tok".to_string()) {
            Err(Error::Auth(m)) => assert_eq!(m, GENERIC_AUTH_ERROR),
            other => panic!("unexpected {other:?}"),
        }
    }
    assert_eq!(login_answer(LoginVerdict::Accepted, "tok".to_string()).unwrap(), "tok");
}
