//! Append-only audit log: the closed taxonomy of recorded events, the
//! shape of one row, and the filter that selects rows for display.
use vstd::prelude::*;
use vstd::string::*;

use crate::auth::now;
use crate::session::{Timestamp, UserId};
use crate::text::str_eq;

verus! {

/// Everything the audit log records. The dotted lower-case name
/// (`as_str`) is what the `event_type` column holds.
#[derive(Debug, Clone, Copy, PartialEq, Eq, Hash, Structural)]
pub enum AuditEventType {
    SessionCreated,
    SessionClosed,
    ParticipantJoined,
    InviteMinted,
    InviteRedeemed,
    InviteRevoked,
    TargetAccessDenied,
    TargetReloaded,
    AuthLoginFailed,
    AuthRegisterRejected,
    AuthRegisterCompleted,
    AuthVerifyFailed,
    AuthUserEnabled,
    AuthUserDisabled,
    AuthSessionAccessDenied,
}

/// The stored name of an event type.
pub open spec fn audit_event_name(t: AuditEventType) -> Seq<char> {
    match t {
        AuditEventType::SessionCreated => "session.created"@,
        AuditEventType::SessionClosed => "session.closed"@,
        AuditEventType::ParticipantJoined => "participant.joined"@,
        AuditEventType::InviteMinted => "invite.minted"@,
        AuditEventType::InviteRedeemed => "invite.redeemed"@,
        AuditEventType::InviteRevoked => "invite.revoked"@,
        AuditEventType::TargetAccessDenied => "target.access_denied"@,
        AuditEventType::TargetReloaded => "target.reloaded"@,
        AuditEventType::AuthLoginFailed => "auth.login_failed"@,
        AuditEventType::AuthRegisterRejected => "auth.register_rejected"@,
        AuditEventType::AuthRegisterCompleted => "auth.register_completed"@,
        AuditEventType::AuthVerifyFailed => "auth.verify_failed"@,
        AuditEventType::AuthUserEnabled => "auth.user_enabled"@,
        AuditEventType::AuthUserDisabled => "auth.user_disabled"@,
        AuditEventType::AuthSessionAccessDenied => "auth.session_access_denied"@,
    }
}

/// Distinct event types have distinct stored names, so a stored name
/// reads back as the event type that wrote it: `parse(t.as_str())` is
/// `Ok(t)` for every `t`.
pub proof fn lemma_audit_name_injective(a: AuditEventType, b: AuditEventType)
    ensures
        audit_event_name(a) == audit_event_name(b) ==> a == b,
{
    if audit_event_name(a) == audit_event_name(b) {
        reveal_strlit("session.created");
        reveal_strlit("session.closed");
        reveal_strlit("participant.joined");
        reveal_strlit("invite.minted");
        reveal_strlit("invite.redeemed");
        reveal_strlit("invite.revoked");
        reveal_strlit("target.access_denied");
        reveal_strlit("target.reloaded");
        reveal_strlit("auth.login_failed");
        reveal_strlit("auth.register_rejected");
        reveal_strlit("auth.register_completed");
        reveal_strlit("auth.verify_failed");
        reveal_strlit("auth.user_enabled");
        reveal_strlit("auth.user_disabled");
        reveal_strlit("auth.session_access_denied");
        assert(audit_event_name(a).len() == audit_event_name(b).len());
        assert(audit_event_name(a)[5] == audit_event_name(b)[5]);
    }
}

fn unknown_type_message(s: &str) -> (m: String)
    ensures
        m@ == "unknown audit event type: "@ + s@,
{
    let mut m = "unknown audit event type: ".to_owned();
    m.append(s);
    m
}

impl AuditEventType {
    /// The name stored in the `event_type` column.
    pub fn as_str(&self) -> (s: &'static str)
        ensures
            s@ == audit_event_name(*self),
    {
        match self {
            AuditEventType::SessionCreated => "session.created",
            AuditEventType::SessionClosed => "session.closed",
            AuditEventType::ParticipantJoined => "participant.joined",
            AuditEventType::InviteMinted => "invite.minted",
            AuditEventType::InviteRedeemed => "invite.redeemed",
            AuditEventType::InviteRevoked => "invite.revoked",
            AuditEventType::TargetAccessDenied => "target.access_denied",
            AuditEventType::TargetReloaded => "target.reloaded",
            AuditEventType::AuthLoginFailed => "auth.login_failed",
            AuditEventType::AuthRegisterRejected => "auth.register_rejected",
            AuditEventType::AuthRegisterCompleted => "auth.register_completed",
            AuditEventType::AuthVerifyFailed => "auth.verify_failed",
            AuditEventType::AuthUserEnabled => "auth.user_enabled",
            AuditEventType::AuthUserDisabled => "auth.user_disabled",
            AuditEventType::AuthSessionAccessDenied => "auth.session_access_denied",
        }
    }

    /// Reads a stored name back; any other text is an error naming it.
    pub fn parse(s: &str) -> (r: core::result::Result<AuditEventType, String>)
        ensures
            r matches Ok(t) ==> audit_event_name(t) == s@,
            r is Err <==> (forall|t: AuditEventType| audit_event_name(t) != s@),
            r matches Err(m) ==> m@ == "unknown audit event type: "@ + s@,
    {
        let r = if str_eq(s, "session.created") {
            Ok(AuditEventType::SessionCreated)
        } else if str_eq(s, "session.closed") {
            Ok(AuditEventType::SessionClosed)
        } else if str_eq(s, "participant.joined") {
            Ok(AuditEventType::ParticipantJoined)
        } else if str_eq(s, "invite.minted") {
            Ok(AuditEventType::InviteMinted)
        } else if str_eq(s, "invite.redeemed") {
            Ok(AuditEventType::InviteRedeemed)
        } else if str_eq(s, "invite.revoked") {
            Ok(AuditEventType::InviteRevoked)
        } else if str_eq(s, "target.access_denied") {
            Ok(AuditEventType::TargetAccessDenied)
        } else if str_eq(s, "target.reloaded") {
            Ok(AuditEventType::TargetReloaded)
        } else if str_eq(s, "auth.login_failed") {
            Ok(AuditEventType::AuthLoginFailed)
        } else if str_eq(s, "auth.register_rejected") {
            Ok(AuditEventType::AuthRegisterRejected)
        } else if str_eq(s, "auth.register_completed") {
            Ok(AuditEventType::AuthRegisterCompleted)
        } else if str_eq(s, "auth.verify_failed") {
            Ok(AuditEventType::AuthVerifyFailed)
        } else if str_eq(s, "auth.user_enabled") {
            Ok(AuditEventType::AuthUserEnabled)
        } else if str_eq(s, "auth.user_disabled") {
            Ok(AuditEventType::AuthUserDisabled)
        } else if str_eq(s, "auth.session_access_denied") {
            Ok(AuditEventType::AuthSessionAccessDenied)
        } else {
            Err(unknown_type_message(s))
        };
        proof {
            if let Ok(t) = r {
                assert(audit_event_name(t) == s@);
            }
            if r is Err {
                assert forall|t: AuditEventType| audit_event_name(t) != s@ by {
                    match t {
                        AuditEventType::SessionCreated => {},
                        AuditEventType::SessionClosed => {},
                        AuditEventType::ParticipantJoined => {},
                        AuditEventType::InviteMinted => {},
                        AuditEventType::InviteRedeemed => {},
                        AuditEventType::InviteRevoked => {},
                        AuditEventType::TargetAccessDenied => {},
                        AuditEventType::TargetReloaded => {},
                        AuditEventType::AuthLoginFailed => {},
                        AuditEventType::AuthRegisterRejected => {},
                        AuditEventType::AuthRegisterCompleted => {},
                        AuditEventType::AuthVerifyFailed => {},
                        AuditEventType::AuthUserEnabled => {},
                        AuditEventType::AuthUserDisabled => {},
                        AuditEventType::AuthSessionAccessDenied => {},
                    }
                }
            }
        }
        r
    }
}

/// One value of an event's detail fields.
#[derive(Debug, Clone, PartialEq, Eq)]
pub enum DetailValue {
    Str(String),
    Int(i64),
    Bool(bool),
    /// A count too large, in principle, for a signed field.
    Count(u64),
    /// A point in time, written as RFC 3339 text.
    Time(Timestamp),
    /// A field that is present but has no value.
    Null,
}

/// A row of `audit_events`.
#[derive(Debug, Clone)]
pub struct AuditEvent {
    /// The row id; `None` until the event is stored.
    pub id: Option<i64>,
    pub ts: Timestamp,
    pub actor_id: Option<UserId>,
    /// The actor's name when the event was written; renaming a user
    /// does not rewrite history.
    pub actor_name: Option<String>,
    pub event_type: AuditEventType,
    pub session_id: Option<String>,
    /// Event-specific fields, in order. An event without fields keeps
    /// SQL `NULL` in the `detail` column.
    pub detail: Vec<(String, DetailValue)>,
}

impl AuditEvent {
    /// An event stamped with the current time, with no actor, session or
    /// detail.
    pub fn new(event_type: AuditEventType) -> (e: AuditEvent)
        ensures
            e.id is None,
            e.actor_id is None,
            e.actor_name is None,
            e.event_type == event_type,
            e.session_id is None,
            e.detail@.len() == 0,
    {
        AuditEvent {
            id: None,
            ts: now(),
            actor_id: None,
            actor_name: None,
            event_type,
            session_id: None,
            detail: Vec::new(),
        }
    }

    /// Names the actor, keeping the rest.
    pub fn with_actor(self, id: UserId, name: &str) -> (e: AuditEvent)
        ensures
            e.actor_id == Some(id),
            e.actor_name matches Some(n) && n@ == name@,
            e.id == self.id,
            e.ts == self.ts,
            e.event_type == self.event_type,
            e.session_id == self.session_id,
            e.detail@ == self.detail@,
    {
        let mut e = self;
        e.actor_id = Some(id);
        e.actor_name = Some(name.to_owned());
        e
    }

    /// Names the session, keeping the rest.
    pub fn with_session(self, session_id: &str) -> (e: AuditEvent)
        ensures
            e.session_id matches Some(s) && s@ == session_id@,
            e.id == self.id,
            e.ts == self.ts,
            e.actor_id == self.actor_id,
            e.actor_name == self.actor_name,
            e.event_type == self.event_type,
            e.detail@ == self.detail@,
    {
        let mut e = self;
        e.session_id = Some(session_id.to_owned());
        e
    }

    /// Replaces the detail fields, keeping the rest.
    pub fn with_detail(self, detail: Vec<(String, DetailValue)>) -> (e: AuditEvent)
        ensures
            e.detail@ == detail@,
            e.id == self.id,
            e.ts == self.ts,
            e.actor_id == self.actor_id,
            e.actor_name == self.actor_name,
            e.event_type == self.event_type,
            e.session_id == self.session_id,
    {
        let mut e = self;
        e.detail = detail;
        e
    }
}

/// Which rows a query returns, newest first. Every field is optional.
#[derive(Debug, Clone)]
pub struct AuditFilter {
    /// Inclusive lower bound on `ts`.
    pub since: Option<Timestamp>,
    /// Exclusive upper bound on `ts`.
    pub until: Option<Timestamp>,
    pub actor_id: Option<UserId>,
    pub session_id: Option<String>,
    /// Restrict to these types; empty means every type.
    pub event_types: Vec<AuditEventType>,
    /// Row cap; `None` means 100.
    pub limit: Option<i64>,
    pub offset: i64,
}

impl Default for AuditFilter {
    fn default() -> (f: AuditFilter)
        ensures
            f.since is None,
            f.until is None,
            f.actor_id is None,
            f.session_id is None,
            f.event_types@.len() == 0,
            f.limit is None,
            f.offset == 0,
    {
        AuditFilter {
            since: None,
            until: None,
            actor_id: None,
            session_id: None,
            event_types: Vec::new(),
            limit: None,
            offset: 0,
        }
    }
}

/// The row cap a filter asks for.
pub open spec fn limit_of(f: AuditFilter) -> i64 {
    match f.limit {
        Some(l) => l,
        None => 100,
    }
}

/// `n` comma-separated `?` placeholders.
pub open spec fn placeholders(n: nat) -> Seq<char>
    decreases n,
{
    if n == 0 {
        Seq::empty()
    } else if n == 1 {
        "?"@
    } else {
        placeholders((n - 1) as nat) + ", ?"@
    }
}

pub open spec fn clause_if(b: bool, text: Seq<char>) -> Seq<char> {
    if b {
        text
    } else {
        Seq::empty()
    }
}

/// The SQL text of an audit query: one condition per set field, newest
/// rows first, then the cap and the offset. Parameters are bound in the
/// order of their placeholders: `since`, `until`, the actor, the session,
/// each event type, the cap, and the offset when it is positive.
pub open spec fn audit_query_text(f: AuditFilter) -> Seq<char> {
    "SELECT id, ts, actor_id, actor_name, event_type, session_id, detail FROM audit_events WHERE 1 = 1"@
        + clause_if(f.since is Some, " AND ts >= ?"@)
        + clause_if(f.until is Some, " AND ts < ?"@)
        + clause_if(f.actor_id is Some, " AND actor_id = ?"@)
        + clause_if(f.session_id is Some, " AND session_id = ?"@)
        + clause_if(f.event_types@.len() > 0, " AND event_type IN ("@ + placeholders(f.event_types@.len()) + ")"@)
        + " ORDER BY ts DESC, id DESC LIMIT ?"@
        + clause_if(f.offset > 0, " OFFSET ?"@)
}

fn push_placeholders(s: &mut String, n: usize)
    ensures
        final(s)@ == old(s)@ + placeholders(n as nat),
{
    let mut i: usize = 0;
    while i < n
        invariant
            i <= n,
            s@ == old(s)@ + placeholders(i as nat),
        decreases n - i,
    {
        if i > 0 {
            s.append(", ");
        }
        s.append("?");
        proof {
            reveal_strlit("?");
            reveal_strlit(", ?");
            reveal_strlit(", ");
            assert(s@ =~= old(s)@ + placeholders((i + 1) as nat));
        }
        i = i + 1;
    }
}

impl AuditFilter {
    /// The row cap: the one asked for, or 100.
    pub fn effective_limit(&self) -> (l: i64)
        ensures
            l == limit_of(*self),
    {
        match self.limit {
            Some(l) => l,
            None => 100,
        }
    }

    /// The parameterised SQL for this filter. No text of the caller
    /// reaches it: every value is bound.
    pub fn query_sql(&self) -> (sql: String)
        ensures
            sql@ == audit_query_text(*self),
    {
        let mut sql = "SELECT id, ts, actor_id, actor_name, event_type, session_id, detail FROM audit_events WHERE 1 = 1".to_owned();
        if self.since.is_some() {
            sql.append(" AND ts >= ?");
        }
        if self.until.is_some() {
            sql.append(" AND ts < ?");
        }
        if self.actor_id.is_some() {
            sql.append(" AND actor_id = ?");
        }
        if self.session_id.is_some() {
            sql.append(" AND session_id = ?");
        }
        if self.event_types.len() > 0 {
            sql.append(" AND event_type IN (");
            push_placeholders(&mut sql, self.event_types.len());
            sql.append(")");
        }
        sql.append(" ORDER BY ts DESC, id DESC LIMIT ?");
        if self.offset > 0 {
            sql.append(" OFFSET ?");
        }
        proof {
            assert(sql@ =~= audit_query_text(*self));
        }
        sql
    }
}

} // verus!
