use telepair::error::Error;
use telepair::invite::{
    check_invite_validity, consume, member_shortcut, redeem_precheck, redeem_step, resolve_invite_params, revocable,
    CreateInviteParams, InviteSummary, RedeemStep, MAX_INVITE_TTL_MICROS,
};
use telepair::permission::Role;
use telepair::registration::{
    display_name_taken, registered_user, register_gate, remaining_codes, rollback_pending, upsert_pending, verify_pending,
    PendingRegistration, RegisterRejection, VerifyStep,
};
use telepair::session::{
    ApprovalState, InputMode, InviteToken, LoginFailureOutcome, Session, SessionStatus, User,
    UserId,
};
use telepair::session_service::{
    owner_close_step, OwnerClose, get_session_required, require_active_owned, require_owner, visibility_scope, SessionScope,
};
use telepair::throttle::LoginThrottle;

const MIN: i64 = 60_000_000;

fn user(id: u128, name: &str) -> User {
    User {
        id: UserId(id),
        name: name.to_string(),
        is_admin: false,
        scoped_session_id: None,
        email: None,
        session_enabled: true,
        approval_state: ApprovalState::Approved,
        created_at: 0,
        updated_at: 0,
    }
}

fn session(id: &str, owner: u128, status: SessionStatus) -> Session {
    Session {
        id: id.to_string(),
        owner_id: UserId(owner),
        target_name: "local-shell".to_string(),
        input_mode: InputMode::Multiplexed,
        status,
        created_at: 0,
        closed_at: None,
        closed_reason: None,
        user_target_id: None,
    }
}

fn invite(max_uses: i32, used: i32, expires_at: Option<i64>) -> InviteToken {
    InviteToken {
        token_sha256: "ab12cd34ef".to_string(),
        session_id: "sess-1".to_string(),
        role: Role::Operator,
        max_uses,
        used_count: used,
        expires_at,
        created_at: Some(0),
    }
}

#[test]
fn fifth_bad_password_locks_for_the_window() {
    let mut t = LoginThrottle::idle();
    for k in 1..5 {
        assert_eq!(
            t.record_failure(1_000, 15 * MIN),
            LoginFailureOutcome::Recorded { remaining: 5 - k }
        );
    }
    assert_eq!(
        t.record_failure(2_000, 15 * MIN),
        LoginFailureOutcome::Locked { until: 2_000 + 15 * MIN }
    );
    // Hammering while locked does not move the unlock time.
    assert_eq!(
        t.record_failure(3_000, 15 * MIN),
        LoginFailureOutcome::Locked { until: 2_000 + 15 * MIN }
    );
    assert_eq!(t.check_lockout(3_000), Some(2_000 + 15 * MIN));
    // Once the window has passed the lock is lifted and the count restarts.
    assert_eq!(t.check_lockout(2_000 + 15 * MIN), None);
    assert_eq!(t.failed_count, 0);
    t.clear();
    assert_eq!(t, LoginThrottle::idle());
}

#[test]
fn elapsed_lock_restarts_at_one_failure() {
    let mut t = LoginThrottle { failed_count: 5, locked_until: Some(100) };
    assert_eq!(t.record_failure(100, MIN), LoginFailureOutcome::Recorded { remaining: 4 });
    assert_eq!(t, LoginThrottle { failed_count: 1, locked_until: None });
}

fn pending(code: &str, expires: i64) -> Option<PendingRegistration> {
    let mut row = None;
    upsert_pending(&mut row, "a@b.com", "alice", "hash", code, expires, 10);
    row
}

#[test]
fn five_wrong_codes_lock_the_pending_row() {
    let mut row = pending("123456", 1_000);
    for k in 1..5 {
        match verify_pending(&mut row, "000000", 50) {
            VerifyStep::Failure { count } => assert_eq!(count, k),
            other => panic!("expected a failure, got {other:?}"),
        }
        assert_eq!(remaining_codes(k), (5 - k) as u32);
    }
    assert!(matches!(verify_pending(&mut row, "000000", 50), VerifyStep::Locked));
    // Even the right code is refused now.
    assert!(matches!(verify_pending(&mut row, "123456", 50), VerifyStep::Locked));
}

#[test]
fn right_code_consumes_and_expired_code_is_refused() {
    let mut row = pending("123456", 1_000);
    match verify_pending(&mut row, "123456", 50) {
        VerifyStep::Consume { display_name, password_hash } => {
            assert_eq!(display_name, "alice");
            assert_eq!(password_hash, "hash");
        }
        other => panic!("expected consume, got {other:?}"),
    }
    assert!(row.is_none());
    assert!(matches!(verify_pending(&mut row, "123456", 50), VerifyStep::Expired));

    let mut old = pending("123456", 1_000);
    assert!(matches!(verify_pending(&mut old, "123456", 1_000), VerifyStep::Expired));
    assert!(old.is_some());
}

#[test]
fn upsert_keeps_creation_time_and_rollback_matches_code() {
    let mut row = pending("111111", 1_000);
    upsert_pending(&mut row, "a@b.com", "alice2", "h2", "222222", 2_000, 99);
    let r = row.clone().unwrap();
    assert_eq!(r.created_at, 10);
    assert_eq!(r.updated_at, 99);
    assert_eq!(r.otp_failure_count, 0);
    assert!(!rollback_pending(&mut row, "111111"));
    assert!(row.is_some());
    assert!(rollback_pending(&mut row, "222222"));
    assert!(row.is_none());
}

#[test]
fn register_gate_rejects_known_and_recent() {
    assert_eq!(register_gate(true, None, 0), Some(RegisterRejection::AlreadyRegistered));
    assert_eq!(register_gate(false, Some(0), 59_999_999), Some(RegisterRejection::RateLimited));
    assert_eq!(register_gate(false, Some(0), 60_000_000), None);
    assert_eq!(register_gate(false, None, 0), None);
    assert_eq!(RegisterRejection::RateLimited.as_str(), "rate_limited");
}

fn params(role: Role, max_uses: i32) -> CreateInviteParams {
    CreateInviteParams {
        role,
        max_uses,
        expires_in_minutes: None,
        expires_in_secs: None,
        expires_at: None,
    }
}

fn invalid_message(r: Result<Option<i64>, Error>) -> String {
    match r {
        Err(Error::InvalidInput(m)) => m,
        other => panic!("expected invalid input, got {other:?}"),
    }
}

#[test]
fn invite_policy_limits() {
    let now = 1_000_000;
    assert_eq!(
        invalid_message(resolve_invite_params(&params(Role::Owner, 1), now)),
        "cannot invite with Owner role"
    );
    assert_eq!(
        invalid_message(resolve_invite_params(&params(Role::Viewer, 101), now)),
        "max_uses must be between 1 and 100"
    );
    assert_eq!(resolve_invite_params(&params(Role::Viewer, 1), now).unwrap(), None);
    let huge = CreateInviteParams { expires_in_minutes: Some(1_000_000), ..params(Role::Viewer, 5) };
    assert_eq!(
        resolve_invite_params(&huge, now).unwrap(),
        Some(now + MAX_INVITE_TTL_MICROS)
    );
    let secs = CreateInviteParams { expires_in_secs: Some(30), ..params(Role::Operator, 5) };
    assert_eq!(resolve_invite_params(&secs, now).unwrap(), Some(now + 30_000_000));
    let past = CreateInviteParams { expires_at: Some(now), ..params(Role::Operator, 5) };
    assert_eq!(
        invalid_message(resolve_invite_params(&past, now)),
        "expires_at must be in the future"
    );
    let far = CreateInviteParams {
        expires_at: Some(now + MAX_INVITE_TTL_MICROS + 1),
        ..params(Role::Operator, 5)
    };
    assert_eq!(
        invalid_message(resolve_invite_params(&far, now)),
        "expires_at must not exceed 10080 minutes from now"
    );
    let zero = CreateInviteParams { expires_in_minutes: Some(0), ..params(Role::Operator, 5) };
    assert_eq!(
        invalid_message(resolve_invite_params(&zero, now)),
        "expires_in_minutes must be positive"
    );
}

#[test]
fn redemption_never_exceeds_max_uses() {
    let mut i = invite(2, 0, None);
    for _ in 0..2 {
        assert!(matches!(
            redeem_step(&Some(i.clone()), Some(SessionStatus::Active), false, false, 5),
            RedeemStep::Consume
        ));
        consume(&mut i);
    }
    assert_eq!(i.used_count, 2);
    match redeem_step(&Some(i.clone()), Some(SessionStatus::Active), false, false, 5) {
        RedeemStep::Reject(Error::InvalidInput(m)) => assert_eq!(m, "invite token has been fully used"),
        other => panic!("unexpected {other:?}"),
    }
}

#[test]
fn dead_invites_and_members_do_not_consume() {
    let i = invite(5, 0, Some(10));
    match redeem_step(&Some(i.clone()), Some(SessionStatus::Active), false, false, 11) {
        RedeemStep::Reject(Error::InvalidInput(m)) => assert_eq!(m, "invite token has expired"),
        other => panic!("unexpected {other:?}"),
    }
    assert!(matches!(
        redeem_step(&Some(i.clone()), Some(SessionStatus::Closed), false, false, 5),
        RedeemStep::Reject(Error::SessionClosed(_))
    ));
    assert!(matches!(
        redeem_step(&Some(i.clone()), None, false, false, 5),
        RedeemStep::Reject(Error::SessionNotFound(_))
    ));
    assert!(matches!(
        redeem_step(&Some(i.clone()), Some(SessionStatus::Active), true, true, 5),
        RedeemStep::AlreadyMember
    ));
    assert!(matches!(
        redeem_step(&None, Some(SessionStatus::Active), false, false, 5),
        RedeemStep::Reject(Error::InvalidInput(_))
    ));
    assert!(check_invite_validity(&i, 5).is_ok());
}

#[test]
fn invite_summary_and_revocation_scope() {
    let s = InviteSummary::from_token(invite(3, 5, None));
    assert_eq!(s.remaining_uses, 0);
    assert_eq!(s.token_prefix, "ab12cd34");
    assert!(revocable(Some(invite(1, 0, None)), "sess-1").is_some());
    assert!(revocable(Some(invite(1, 0, None)), "sess-2").is_none());
    assert!(revocable(None, "sess-1").is_none());
}

#[test]
fn scoped_guest_cannot_redeem_elsewhere() {
    let mut guest = user(9, "guest-x");
    guest.scoped_session_id = Some("sess-2".to_string());
    let active = Some(session("sess-1", 1, SessionStatus::Active));
    match redeem_precheck(&Some(guest), &invite(1, 0, None), &active) {
        Err(Error::PermissionDenied(m)) => {
            assert_eq!(m, "scoped guest cannot redeem invite for a different session")
        }
        other => panic!("unexpected {other:?}"),
    }
    assert!(redeem_precheck(&None, &invite(1, 0, None), &active).is_ok());
}

#[test]
fn ownership_checks() {
    let alice = user(1, "alice");
    let bob = user(2, "bob");
    let s = session("sess-1", 1, SessionStatus::Active);
    assert!(require_owner(&alice, "sess-1", Some(s.clone())).is_ok());
    match require_owner(&bob, "sess-1", Some(s.clone())) {
        Err(Error::PermissionDenied(m)) => assert_eq!(
            m,
            "user 00000000-0000-0000-0000-000000000002 does not own session sess-1"
        ),
        other => panic!("unexpected {other:?}"),
    }
    assert!(matches!(require_owner(&alice, "nope", None), Err(Error::SessionNotFound(_))));
    let closed = session("sess-1", 1, SessionStatus::Closed);
    assert!(matches!(
        require_active_owned(&alice, "sess-1", Some(closed)),
        Err(Error::SessionClosed(_))
    ));
    assert!(matches!(get_session_required("x", None), Err(Error::SessionNotFound(m)) if m == "x"));
    let mut admin = user(3, "root");
    admin.is_admin = true;
    assert_eq!(visibility_scope(&admin), SessionScope::All);
    assert_eq!(visibility_scope(&alice), SessionScope::OwnedOrJoined);
}

#[test]
fn summary_label_is_eight_digest_characters() {
    let mut i = invite(3, 1, None);
    i.token_sha256 = telepair::auth::token_sha256("raw-token");
    let s = InviteSummary::from_token(i.clone());
    assert_eq!(s.token_prefix.len(), 8);
    assert_eq!(s.token_prefix, &i.token_sha256[..8]);
    assert_eq!(s.remaining_uses, 2);
    // Audit rows keep the shorter four-character label.
    assert_eq!(i.token_prefix(), &i.token_sha256[..4]);
}

#[test]
fn member_shortcut_answers_with_the_held_role() {
    let inv = invite(3, 1, None);
    let r = member_shortcut(&inv, Some(Role::Viewer)).unwrap();
    assert_eq!(r.session_id, inv.session_id);
    assert_eq!(r.role, Role::Viewer);
    assert!(r.issued_token.is_none());
    assert!(member_shortcut(&inv, None).is_none());
}

#[test]
fn registered_user_waits_for_approval() {
    let id = UserId(79);
    let u = registered_user(id, "alice".to_string(), "a@x.io".to_string(), 42);
    assert_eq!(u.id, id);
    assert_eq!(u.name, "alice");
    assert!(!u.is_admin);
    assert!(!u.session_enabled);
    assert!(u.scoped_session_id.is_none());
    assert_eq!(u.email.as_deref(), Some("a@x.io"));
    assert_eq!(u.approval_state, ApprovalState::Pending);
    assert_eq!(u.created_at, 42);
    match display_name_taken("alice") {
        Error::Conflict(m) => assert_eq!(
            m,
            "display name 'alice' is already taken — please re-register with a different name"
        ),
        e => panic!("unexpected {e:?}"),
    }
}

#[test]
fn closing_a_closed_session_again_is_not_an_error() {
    let alice = user(1, "alice");
    let bob = user(2, "bob");
    let open = session("sess-1", 1, SessionStatus::Active);
    let closed = session("sess-1", 1, SessionStatus::Closed);
    assert_eq!(owner_close_step(&alice, "sess-1", Some(open.clone())).unwrap(), OwnerClose::Close);
    assert_eq!(owner_close_step(&alice, "sess-1", Some(closed.clone())).unwrap(), OwnerClose::AlreadyClosed);
    assert!(matches!(owner_close_step(&bob, "sess-1", Some(closed)), Err(Error::PermissionDenied(_))));
    assert!(matches!(owner_close_step(&alice, "nope", None), Err(Error::SessionNotFound(id)) if id == "nope"));
}
