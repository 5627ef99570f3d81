use telepair::audit::AuditEventType;
use telepair::cli::{
    actor_lookup, choose_audit_window, choose_password, cli_event_type, new_account_fields, parse_last_window,
    truncate, user_lookup, window_bounds, ActorLookup, AuditWindow, LastWindow, UserLookup, WindowUnit,
};

fn window(amount: i64, unit: WindowUnit) -> LastWindow {
    LastWindow { amount, unit }
}

#[test]
fn parse_last_window_accepts_units() {
    assert_eq!(parse_last_window("30s").unwrap(), window(30, WindowUnit::Seconds));
    assert_eq!(parse_last_window("45m").unwrap(), window(45, WindowUnit::Minutes));
    assert_eq!(parse_last_window("24h").unwrap(), window(24, WindowUnit::Hours));
    assert_eq!(parse_last_window("7d").unwrap(), window(7, WindowUnit::Days));
}

#[test]
fn parse_last_window_rejects_garbage() {
    assert!(parse_last_window("").is_err());
    assert!(parse_last_window("42").is_err());
    assert!(parse_last_window("42y").is_err());
    assert!(parse_last_window("1h30m").is_err());
    assert!(parse_last_window("0h").is_err());
    assert!(parse_last_window("-5h").is_err());
    assert!(parse_last_window("abc").is_err());
}

#[test]
fn parse_last_window_trims_whitespace() {
    assert_eq!(parse_last_window("  2h  ").unwrap(), window(2, WindowUnit::Hours));
}

#[test]
fn parse_last_window_error_messages() {
    assert_eq!(
        parse_last_window("   ").unwrap_err(),
        "--last value is empty; expected e.g. 1h, 24h, 7d"
    );
    assert_eq!(parse_last_window(" 42 ").unwrap_err(), "--last value '42' missing unit (s|m|h|d)");
    assert_eq!(
        parse_last_window("abc").unwrap_err(),
        "--last numeric prefix must be a positive integer: abc"
    );
    assert_eq!(
        parse_last_window("99999999999999999999h").unwrap_err(),
        "--last numeric prefix must be a positive integer: 99999999999999999999h"
    );
    assert_eq!(parse_last_window("000s").unwrap_err(), "--last value must be positive: 000s");
    assert_eq!(
        parse_last_window("1h30m").unwrap_err(),
        "--last unit must be one of s|m|h|d, got 'h30m'"
    );
    assert_eq!(parse_last_window("007d").unwrap(), window(7, WindowUnit::Days));
    assert_eq!(
        parse_last_window("9223372036854775807s").unwrap(),
        window(i64::MAX, WindowUnit::Seconds)
    );
}

#[test]
fn truncate_short_string_unchanged() {
    assert_eq!(truncate("hello", 10), "hello");
}

#[test]
fn truncate_long_string_adds_ellipsis() {
    let result = truncate("abcdefghij", 5);
    assert_eq!(result.chars().count(), 5);
    assert!(result.ends_with('…'));
}

#[test]
fn truncate_exact_length_unchanged() {
    assert_eq!(truncate("abc", 3), "abc");
}

#[test]
fn truncate_counts_characters_not_bytes() {
    assert_eq!(truncate("héllo wörld", 6), "héllo…");
    assert_eq!(truncate("abc", 0), "…");
    assert_eq!(truncate("abc", 1), "…");
}

#[test]
fn new_account_fields_normalizes_and_derives_name() {
    let (email, name) = new_account_fields("  Dev@Example.COM ", &None).unwrap();
    assert_eq!(email, "dev@example.com");
    assert_eq!(name, "dev");
    let (_, name) = new_account_fields("a@b", &Some("  Alice  ".to_string())).unwrap();
    assert_eq!(name, "Alice");
}

#[test]
fn new_account_fields_rejections() {
    assert_eq!(
        new_account_fields("not-an-email", &None).unwrap_err(),
        "--email must be a non-empty address containing '@'"
    );
    assert_eq!(
        new_account_fields("   ", &None).unwrap_err(),
        "--email must be a non-empty address containing '@'"
    );
    assert_eq!(
        new_account_fields("x@y", &Some("  ".to_string())).unwrap_err(),
        "--name, if provided, must be non-empty"
    );
    assert_eq!(
        new_account_fields("@example.com", &None).unwrap_err(),
        "cannot derive display name from email '@example.com'"
    );
}

#[test]
fn choose_password_sources() {
    let (p, generated) =
        choose_password(Some(("pw.txt".to_string(), "file-pass-1\r\n\n".to_string())), None).unwrap();
    assert_eq!(p, "file-pass-1");
    assert!(!generated);
    assert_eq!(
        choose_password(Some(("empty.txt".to_string(), "\n".to_string())), None).unwrap_err(),
        "--password-file empty.txt is empty"
    );
    let (p, generated) = choose_password(None, Some("hunter2a".to_string())).unwrap();
    assert_eq!(p, "hunter2a");
    assert!(!generated);
    assert_eq!(
        choose_password(None, Some(String::new())).unwrap_err(),
        "--password must be non-empty"
    );
    let (p, generated) = choose_password(None, None).unwrap();
    assert!(generated);
    assert_eq!(p.chars().count(), 16);
    assert!(p.chars().all(|c| c.is_ascii_alphanumeric() || c == '_' || c == '-'));
}

#[test]
fn cli_event_type_reads_names() {
    assert_eq!(cli_event_type("session.created").unwrap(), AuditEventType::SessionCreated);
    let err = cli_event_type("invalid.event.type").unwrap_err();
    assert!(err.contains("invalid.event.type"));
    assert!(err.starts_with("--type 'invalid.event.type' unknown; valid types: session.created"));
}

#[test]
fn lookups_tell_uuids_from_names() {
    match user_lookup("67e55044-10b1-426f-9247-bb680e5fe0c8") {
        UserLookup::ById(id) => assert_eq!(id.0, 0x67e5504410b1426f9247bb680e5fe0c8),
        other => panic!("expected an id, got {other:?}"),
    }
    match user_lookup("Toggle@Example.com") {
        UserLookup::ByEmail(e) => assert_eq!(e, "toggle@example.com"),
        other => panic!("expected an address, got {other:?}"),
    }
    match actor_lookup("alice") {
        ActorLookup::ByName(n) => assert_eq!(n, "alice"),
        other => panic!("expected a name, got {other:?}"),
    }
}

#[test]
fn audit_window_prefers_last_then_bounds_then_a_day() {
    assert_eq!(
        choose_audit_window(Some("2h"), Some(5), Some(9)).unwrap(),
        AuditWindow::Last(window(2, WindowUnit::Hours))
    );
    assert_eq!(choose_audit_window(None, Some(5), None).unwrap(), AuditWindow::Between(Some(5), None));
    assert_eq!(choose_audit_window(None, None, Some(9)).unwrap(), AuditWindow::Between(None, Some(9)));
    assert_eq!(choose_audit_window(None, None, None).unwrap(), AuditWindow::LastDay);
    assert_eq!(
        choose_audit_window(Some("0h"), None, None).unwrap_err(),
        "--last value must be positive: 0h"
    );
}

#[test]
fn audit_window_bounds_end_now() {
    let now: i64 = 1_700_000_000_000_000;
    assert_eq!(
        window_bounds(&AuditWindow::Last(window(2, WindowUnit::Hours)), now),
        (Some(now - 7_200_000_000), Some(now))
    );
    assert_eq!(
        window_bounds(&AuditWindow::Last(window(7, WindowUnit::Days)), now),
        (Some(now - 604_800_000_000), Some(now))
    );
    assert_eq!(window_bounds(&AuditWindow::Between(Some(5), None), now), (Some(5), None));
    assert_eq!(window_bounds(&AuditWindow::LastDay, now), (Some(now - 86_400_000_000), Some(now)));
}
