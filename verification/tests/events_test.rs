use telepair::audit::{AuditEventType, DetailValue};
use telepair::auth_service::{
    bad_password_report, classify_verify, login_failed_event, otp_email_body, register_completed_event,
    register_rejected_event, require_smtp, session_access_event, verify_answer, verify_failed_event,
    LoginVerdict, SmtpConfig, VerifyFailure, VerifyOutcome, GENERIC_AUTH_ERROR,
};
use telepair::error::Error;
use telepair::events::{
    bulk_closed_event, invite_minted_event, invite_revoked_event, redeem_events,
    session_closed_event, session_created_events,
};
use telepair::permission::Role;
use telepair::registration::RegisterRejection;
use telepair::session::{
    ApprovalState, CloseReason, InputMode, InviteToken, LoginFailureOutcome, PendingVerifyResult,
    RedeemOutcome, User, UserId,
};

fn account(id: u128, name: &str) -> User {
    User {
        id: UserId(id),
        name: name.to_string(),
        is_admin: false,
        scoped_session_id: None,
        email: Some(format!("{name}@example.com")),
        session_enabled: true,
        approval_state: ApprovalState::Approved,
        created_at: 0,
        updated_at: 0,
    }
}

fn text(key: &str, value: &str) -> (String, DetailValue) {
    (key.to_string(), DetailValue::Str(value.to_string()))
}

fn sample_invite() -> InviteToken {
    InviteToken {
        token_sha256: "deadbeef00".to_string(),
        session_id: "sess-1".to_string(),
        role: Role::Viewer,
        max_uses: 3,
        used_count: 1,
        expires_at: None,
        created_at: None,
    }
}

#[test]
fn session_creation_leaves_two_rows() {
    let alice = account(1, "alice");
    let (created, joined) = session_created_events(&alice, "sess-1", "local-shell", InputMode::Serialized);
    assert_eq!(created.event_type, AuditEventType::SessionCreated);
    assert_eq!(created.actor_name.as_deref(), Some("alice"));
    assert_eq!(created.session_id.as_deref(), Some("sess-1"));
    assert_eq!(
        created.detail,
        vec![text("target_name", "local-shell"), text("input_mode", "serialized")]
    );
    assert_eq!(joined.event_type, AuditEventType::ParticipantJoined);
    assert_eq!(joined.detail, vec![text("role", "owner")]);
}

#[test]
fn closing_records_reason_and_duration() {
    let alice = account(1, "alice");
    let e = session_closed_event("sess-1", CloseReason::Owner, Some(&alice), Some(0), 90_500_000);
    assert_eq!(e.actor_id, Some(UserId(1)));
    assert_eq!(
        e.detail,
        vec![text("reason", "owner"), ("duration_s".to_string(), DetailValue::Int(90))]
    );
    let e = session_closed_event("sess-1", CloseReason::Reaper, None, None, 5);
    assert!(e.actor_id.is_none());
    assert_eq!(e.detail[1].1, DetailValue::Null);
    let e = session_closed_event("s", CloseReason::Owner, None, Some(2_500_000), 0);
    assert_eq!(e.detail[1].1, DetailValue::Int(-2));
    assert!(bulk_closed_event(CloseReason::Startup, 0).is_none());
    let bulk = bulk_closed_event(CloseReason::Startup, 3).unwrap();
    assert_eq!(
        bulk.detail,
        vec![
            text("reason", "startup"),
            ("bulk".to_string(), DetailValue::Bool(true)),
            ("count".to_string(), DetailValue::Count(3)),
        ]
    );
}

#[test]
fn invite_rows_name_the_prefix_not_the_token() {
    let alice = account(1, "alice");
    let minted = invite_minted_event(&alice, "sess-1", &sample_invite());
    assert_eq!(
        minted.detail,
        vec![
            text("token_prefix", "dead"),
            text("role", "viewer"),
            ("max_uses".to_string(), DetailValue::Int(3)),
            ("expires_at".to_string(), DetailValue::Null),
        ]
    );
    let revoked = invite_revoked_event(&alice, "sess-1", &sample_invite());
    assert_eq!(revoked.event_type, AuditEventType::InviteRevoked);
    assert_eq!(revoked.detail, vec![text("token_prefix", "dead"), text("role", "viewer")]);
}

#[test]
fn redemption_rows_are_skipped_for_members() {
    let outcome = RedeemOutcome {
        invite: sample_invite(),
        user_id: UserId(5),
        user_name: "guest-abc".to_string(),
        issued_token: Some("raw".to_string()),
        was_already_member: false,
    };
    let (redeemed, joined) = redeem_events(&outcome, true).unwrap();
    assert_eq!(redeemed.event_type, AuditEventType::InviteRedeemed);
    assert_eq!(redeemed.detail[2], ("as_guest".to_string(), DetailValue::Bool(true)));
    assert_eq!(joined.detail, vec![text("role", "viewer")]);
    let member = RedeemOutcome { was_already_member: true, ..outcome };
    assert!(redeem_events(&member, false).is_none());
}

#[test]
fn login_failure_rows_carry_the_reason() {
    let e = login_failed_event(None, "x@y.z", LoginVerdict::UnknownEmail, None, None);
    assert_eq!(e.event_type, AuditEventType::AuthLoginFailed);
    assert!(e.actor_id.is_none());
    assert_eq!(e.detail, vec![text("email", "x@y.z"), text("reason", "unknown_email")]);

    let (remaining, until) = bad_password_report(Some(LoginFailureOutcome::Locked { until: 77 }));
    assert_eq!((remaining, until), (Some(0), Some(77)));
    let e = login_failed_event(
        Some((UserId(2), "bob")),
        "bob@b.c",
        LoginVerdict::BadPassword,
        remaining,
        until,
    );
    assert_eq!(
        e.detail,
        vec![
            text("email", "bob@b.c"),
            text("reason", "bad_password"),
            ("remaining".to_string(), DetailValue::Int(0)),
            ("locked_until".to_string(), DetailValue::Time(77)),
        ]
    );
    assert_eq!(
        bad_password_report(Some(LoginFailureOutcome::Recorded { remaining: 3 })),
        (Some(3), None)
    );
    assert_eq!(bad_password_report(None), (None, None));
}

#[test]
fn verification_outcomes() {
    let refused = classify_verify(Ok(PendingVerifyResult::Failure { remaining: 2 }));
    assert!(matches!(refused, VerifyOutcome::Refused(VerifyFailure::BadCode { remaining: 2 })));
    match verify_answer(refused) {
        Err(Error::Auth(m)) => assert_eq!(m, GENERIC_AUTH_ERROR),
        other => panic!("unexpected {other:?}"),
    }
    assert!(matches!(
        classify_verify(Err(Error::Conflict("name".into()))),
        VerifyOutcome::Refused(VerifyFailure::DisplayNameConflict)
    ));
    assert!(matches!(
        verify_answer(classify_verify(Err(Error::Storage("db".into())))),
        Err(Error::Storage(m)) if m == "db"
    ));
    let done = classify_verify(Ok(PendingVerifyResult::Success {
        user: account(3, "carol"),
        raw_token: "tok".to_string(),
    }));
    assert_eq!(verify_answer(done).unwrap(), "tok");

    let e = verify_failed_event("a@b.c", VerifyFailure::BadCode { remaining: 2 });
    assert_eq!(
        e.detail,
        vec![
            text("email", "a@b.c"),
            text("reason", "bad_code"),
            ("remaining".to_string(), DetailValue::Int(2)),
        ]
    );
    let e = verify_failed_event("a@b.c", VerifyFailure::ExpiredOrUnknown);
    assert_eq!(e.detail, vec![text("email", "a@b.c"), text("reason", "expired_or_unknown")]);
}

#[test]
fn registration_and_admin_rows() {
    let e = register_rejected_event("a@b.c", RegisterRejection::AlreadyRegistered);
    assert_eq!(e.detail, vec![text("email", "a@b.c"), text("reason", "already_registered")]);
    let e = register_completed_event(UserId(4), "dora", "d@e.f");
    assert_eq!(e.actor_id, Some(UserId(4)));
    assert_eq!(e.detail, vec![text("email", "d@e.f")]);
    let target = account(0x10, "erin");
    let e = session_access_event(UserId(1), "root", &target, false);
    assert_eq!(e.event_type, AuditEventType::AuthUserDisabled);
    assert_eq!(
        e.detail,
        vec![
            text("target_user_id", "00000000-0000-0000-0000-000000000010"),
            text("target_user_name", "erin"),
        ]
    );
    assert_eq!(
        session_access_event(UserId(1), "root", &target, true).event_type,
        AuditEventType::AuthUserEnabled
    );
}

#[test]
fn registration_needs_mail() {
    match require_smtp(&None) {
        Err(Error::ServiceUnavailable(m)) => assert_eq!(
            m,
            "This instance has not configured email sending. Contact the administrator."
        ),
        other => panic!("unexpected {other:?}"),
    }
    let smtp = SmtpConfig {
        host: "mail".to_string(),
        port: 587,
        username: "u".to_string(),
        password: "p".to_string(),
        from: "noreply@x".to_string(),
    };
    assert!(require_smtp(&Some(smtp)).is_ok());
    assert_eq!(
        otp_email_body("123456"),
        "Your verification code is: 123456\n\nThis code expires in 15 minutes.\nIf you did not request this, ignore this email."
    );
}
