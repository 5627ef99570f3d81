use telepair::error::Error;
use telepair::pty_env::{guest_retry, pty_environment, GUEST_NAME_MAX_ATTEMPTS};

fn pairs(v: &[(&str, &str)]) -> Vec<(String, String)> {
    v.iter().map(|(a, b)| (a.to_string(), b.to_string())).collect()
}

#[test]
fn only_safe_variables_are_inherited() {
    let server = pairs(&[
        ("AWS_SECRET_ACCESS_KEY", "shh"),
        ("PATH", "/usr/bin"),
        ("HOME", "/home/t"),
        ("DATABASE_URL", "sqlite:x"),
        ("LANG", "C.UTF-8"),
    ]);
    let overrides = pairs(&[("PGPASSWORD", "pw")]);
    let env = pty_environment(&server, &overrides);
    assert_eq!(
        env,
        pairs(&[
            ("HOME", "/home/t"),
            ("PATH", "/usr/bin"),
            ("LANG", "C.UTF-8"),
            ("TERM", "xterm-256color"),
            ("PGPASSWORD", "pw"),
        ])
    );
    assert!(env.iter().all(|(k, _)| k != "AWS_SECRET_ACCESS_KEY" && k != "DATABASE_URL"));
}

#[test]
fn target_variables_come_last_and_win() {
    let env = pty_environment(&Vec::new(), &pairs(&[("TERM", "dumb")]));
    assert_eq!(env, pairs(&[("TERM", "xterm-256color"), ("TERM", "dumb")]));
}

#[test]
fn guest_names_are_retried_only_on_collisions() {
    assert!(guest_retry(1, Error::Storage("unique".into()), true).is_ok());
    assert!(matches!(
        guest_retry(GUEST_NAME_MAX_ATTEMPTS, Error::Storage("unique".into()), true),
        Err(Error::Storage(m)) if m == "unique"
    ));
    assert!(matches!(
        guest_retry(1, Error::Internal("disk".into()), false),
        Err(Error::Internal(_))
    ));
}
