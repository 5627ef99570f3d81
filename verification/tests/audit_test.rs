use telepair::audit::{AuditEvent, AuditEventType, AuditFilter, DetailValue};
use telepair::session::UserId;

const ALL: [AuditEventType; 15] = [
    AuditEventType::SessionCreated,
    AuditEventType::SessionClosed,
    AuditEventType::ParticipantJoined,
    AuditEventType::InviteMinted,
    AuditEventType::InviteRedeemed,
    AuditEventType::InviteRevoked,
    AuditEventType::TargetAccessDenied,
    AuditEventType::TargetReloaded,
    AuditEventType::AuthLoginFailed,
    AuditEventType::AuthRegisterRejected,
    AuditEventType::AuthRegisterCompleted,
    AuditEventType::AuthVerifyFailed,
    AuditEventType::AuthUserEnabled,
    AuditEventType::AuthUserDisabled,
    AuditEventType::AuthSessionAccessDenied,
];

#[test]
fn every_event_type_name_reads_back() {
    for t in ALL {
        assert_eq!(AuditEventType::parse(t.as_str()), Ok(t));
    }
    let names: std::collections::HashSet<&str> = ALL.iter().map(|t| t.as_str()).collect();
    assert_eq!(names.len(), ALL.len());
}

#[test]
fn event_type_names_are_dotted_lowercase() {
    assert_eq!(AuditEventType::SessionCreated.as_str(), "session.created");
    assert_eq!(AuditEventType::TargetAccessDenied.as_str(), "target.access_denied");
    assert_eq!(
        AuditEventType::AuthSessionAccessDenied.as_str(),
        "auth.session_access_denied"
    );
}

#[test]
fn unknown_event_type_is_named_in_the_error() {
    assert_eq!(
        AuditEventType::parse("SessionCreated"),
        Err("unknown audit event type: SessionCreated".to_string())
    );
}

#[test]
fn builders_fill_their_fields_only() {
    let actor = UserId(7);
    let event = AuditEvent::new(AuditEventType::SessionCreated)
        .with_actor(actor, "alice")
        .with_session("sess-123")
        .with_detail(vec![("target".to_string(), DetailValue::Str("local-shell".to_string()))]);
    assert_eq!(event.id, None);
    assert_eq!(event.actor_id, Some(actor));
    assert_eq!(event.actor_name.as_deref(), Some("alice"));
    assert_eq!(event.event_type, AuditEventType::SessionCreated);
    assert_eq!(event.session_id.as_deref(), Some("sess-123"));
    assert_eq!(event.detail.len(), 1);
    assert!(event.ts > 0);

    let bare = AuditEvent::new(AuditEventType::TargetAccessDenied);
    assert!(bare.actor_id.is_none());
    assert!(bare.session_id.is_none());
    assert!(bare.detail.is_empty());
}

#[test]
fn default_filter_selects_the_latest_hundred() {
    let f = AuditFilter::default();
    assert_eq!(f.effective_limit(), 100);
    assert_eq!(
        f.query_sql(),
        "SELECT id, ts, actor_id, actor_name, event_type, session_id, detail FROM audit_events WHERE 1 = 1 ORDER BY ts DESC, id DESC LIMIT ?"
    );
}

#[test]
fn full_filter_query_text() {
    let f = AuditFilter {
        since: Some(1),
        until: Some(2),
        actor_id: Some(UserId(3)),
        session_id: Some("s".to_string()),
        event_types: vec![AuditEventType::SessionCreated, AuditEventType::SessionClosed],
        limit: Some(5),
        offset: 10,
    };
    assert_eq!(f.effective_limit(), 5);
    assert_eq!(
        f.query_sql(),
        "SELECT id, ts, actor_id, actor_name, event_type, session_id, detail FROM audit_events WHERE 1 = 1 AND ts >= ? AND ts < ? AND actor_id = ? AND session_id = ? AND event_type IN (?, ?) ORDER BY ts DESC, id DESC LIMIT ? OFFSET ?"
    );
}
