use telepair::error::Error;

#[test]
fn new_error_variants_have_correct_http_status() {
    assert_eq!(Error::Conflict("dup".into()).http_status(), 409);
    assert_eq!(Error::RateLimited("slow".into()).http_status(), 429);
    assert_eq!(Error::ServiceUnavailable("smtp".into()).http_status(), 503);
}

#[test]
fn every_kind_has_its_status() {
    let cases = [
        (Error::Auth("a".into()), 401),
        (Error::PermissionDenied("a".into()), 403),
        (Error::SessionNotFound("a".into()), 404),
        (Error::TargetNotFound("a".into()), 404),
        (Error::SessionClosed("a".into()), 410),
        (Error::InvalidInput("a".into()), 400),
        (Error::Json("a".into()), 400),
        (Error::Internal("a".into()), 500),
        (Error::Storage("a".into()), 500),
        (Error::Io("a".into()), 500),
        (Error::Yaml("a".into()), 500),
    ];
    for (e, s) in cases {
        assert_eq!(e.http_status(), s, "{e:?}");
    }
}

#[test]
fn describe_prefixes_the_kind() {
    assert_eq!(Error::Conflict("dup".into()).describe(), "conflict: dup");
    assert_eq!(
        Error::SessionClosed("sess-1".into()).describe(),
        "session closed: sess-1"
    );
    assert_eq!(Error::Auth("x".into()).describe(), "authentication failed: x");
}
