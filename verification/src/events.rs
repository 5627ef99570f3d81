//! The audit rows of the session and invite life cycle: what each row
//! names and which detail fields it carries.
use vstd::prelude::*;
use vstd::utf8::is_ascii_chars;

use crate::audit::{AuditEvent, AuditEventType, DetailValue};
use crate::auth_service::text_field;
use crate::permission::{role_name, Role};
use crate::session::{close_reason_name, input_mode_name, prefix_label, CloseReason, InputMode, InviteToken, RedeemOutcome, Timestamp, User, UserId};
use crate::text::owned;

verus! {

fn text_entry(key: &str, value: &str) -> (f: (String, DetailValue))
    ensures
        text_field(f, key@, value@),
{
    (owned(key), DetailValue::Str(owned(value)))
}

/// The event names `who` as its actor.
pub open spec fn acted_by(e: AuditEvent, id: UserId, name: Seq<char>) -> bool {
    &&& e.actor_id == Some(id)
    &&& e.actor_name matches Some(n) && n@ == name
}

/// The event belongs to the session `sid`.
pub open spec fn in_session(e: AuditEvent, sid: Seq<char>) -> bool {
    e.session_id matches Some(s) && s@ == sid
}

/// The two rows of a new session: its creation (target and input mode)
/// and the owner joining it as owner.
pub fn session_created_events(owner: &User, session_id: &str, target_name: &str, mode: InputMode) -> (r: (AuditEvent, AuditEvent))
    ensures
        r.0.event_type == AuditEventType::SessionCreated,
        acted_by(r.0, owner.id, owner.name@),
        in_session(r.0, session_id@),
        r.0.id is None,
        r.0.detail@.len() == 2,
        text_field(r.0.detail@[0], "target_name"@, target_name@),
        text_field(r.0.detail@[1], "input_mode"@, input_mode_name(mode)),
        r.1.event_type == AuditEventType::ParticipantJoined,
        acted_by(r.1, owner.id, owner.name@),
        in_session(r.1, session_id@),
        r.1.id is None,
        r.1.detail@.len() == 1,
        text_field(r.1.detail@[0], "role"@, role_name(Role::Owner)),
{
    let mut d1: Vec<(String, DetailValue)> = Vec::new();
    d1.push(text_entry("target_name", target_name));
    d1.push(text_entry("input_mode", mode.as_str()));
    let created = AuditEvent::new(AuditEventType::SessionCreated)
        .with_actor(owner.id, owner.name.as_str())
        .with_session(session_id)
        .with_detail(d1);
    let mut d2: Vec<(String, DetailValue)> = Vec::new();
    d2.push(text_entry("role", Role::Owner.as_str()));
    let joined = AuditEvent::new(AuditEventType::ParticipantJoined)
        .with_actor(owner.id, owner.name.as_str())
        .with_session(session_id)
        .with_detail(d2);
    (created, joined)
}

/// Whole seconds of a span of microseconds, rounded toward zero.
pub open spec fn whole_seconds(d: int) -> int {
    if d >= 0 {
        d / 1_000_000
    } else {
        -((-d) / 1_000_000)
    }
}

fn span_seconds(from: Timestamp, to: Timestamp) -> (s: i64)
    ensures
        s == whole_seconds(to - from),
{
    let d: i128 = to as i128 - from as i128;
    if d >= 0 {
        (d / 1_000_000) as i64
    } else {
        (0 - ((0 - d) / 1_000_000)) as i64
    }
}

/// The row of a closed session: why, and how long it lasted (`null`
/// when its creation time is unknown). `actor` is who closed it, when
/// someone did.
pub fn session_closed_event(
    session_id: &str,
    reason: CloseReason,
    actor: Option<&User>,
    created_at: Option<Timestamp>,
    now: Timestamp,
) -> (e: AuditEvent)
    ensures
        e.event_type == AuditEventType::SessionClosed,
        in_session(e, session_id@),
        e.id is None,
        match actor {
            Some(u) => acted_by(e, u.id, u.name@),
            None => e.actor_id is None && e.actor_name is None,
        },
        e.detail@.len() == 2,
        text_field(e.detail@[0], "reason"@, close_reason_name(reason)),
        e.detail@[1].0@ == "duration_s"@,
        e.detail@[1].1 == match created_at {
            Some(c) => DetailValue::Int(whole_seconds(now - c) as i64),
            None => DetailValue::Null,
        },
{
    let mut event = AuditEvent::new(AuditEventType::SessionClosed).with_session(session_id);
    if let Some(u) = actor {
        event = event.with_actor(u.id, u.name.as_str());
    }
    let duration = match created_at {
        Some(c) => DetailValue::Int(span_seconds(c, now)),
        None => DetailValue::Null,
    };
    let mut d: Vec<(String, DetailValue)> = Vec::new();
    d.push(text_entry("reason", reason.as_str()));
    d.push((owned("duration_s"), duration));
    event.with_detail(d)
}

/// The one row of a bulk close (instead of one per session), or none
/// when nothing was closed.
pub fn bulk_closed_event(reason: CloseReason, count: u64) -> (e: Option<AuditEvent>)
    ensures
        count == 0 <==> e is None,
        e matches Some(ev) ==> {
            &&& ev.event_type == AuditEventType::SessionClosed
            &&& ev.id is None && ev.actor_id is None && ev.actor_name is None && ev.session_id is None
            &&& ev.detail@.len() == 3
            &&& text_field(ev.detail@[0], "reason"@, close_reason_name(reason))
            &&& ev.detail@[1].0@ == "bulk"@ && ev.detail@[1].1 == DetailValue::Bool(true)
            &&& ev.detail@[2].0@ == "count"@ && ev.detail@[2].1 == DetailValue::Count(count)
        },
{
    if count == 0 {
        return None;
    }
    let mut d: Vec<(String, DetailValue)> = Vec::new();
    d.push(text_entry("reason", reason.as_str()));
    d.push((owned("bulk"), DetailValue::Bool(true)));
    d.push((owned("count"), DetailValue::Count(count)));
    Some(AuditEvent::new(AuditEventType::SessionClosed).with_detail(d))
}

/// The row of a minted invite. It names the invite by the short prefix
/// of its digest, never by the token itself.
pub fn invite_minted_event(owner: &User, session_id: &str, invite: &InviteToken) -> (e: AuditEvent)
    requires
        is_ascii_chars(invite.token_sha256@),
    ensures
        e.event_type == AuditEventType::InviteMinted,
        acted_by(e, owner.id, owner.name@),
        in_session(e, session_id@),
        e.id is None,
        e.detail@.len() == 4,
        text_field(e.detail@[0], "token_prefix"@, prefix_label(invite.token_sha256@)),
        text_field(e.detail@[1], "role"@, role_name(invite.role)),
        e.detail@[2].0@ == "max_uses"@ && e.detail@[2].1 == DetailValue::Int(invite.max_uses as i64),
        e.detail@[3].0@ == "expires_at"@,
        e.detail@[3].1 == match invite.expires_at {
            Some(t) => DetailValue::Time(t),
            None => DetailValue::Null,
        },
{
    let prefix = invite.token_prefix();
    let mut d: Vec<(String, DetailValue)> = Vec::new();
    d.push(text_entry("token_prefix", prefix.as_str()));
    d.push(text_entry("role", invite.role.as_str()));
    d.push((owned("max_uses"), DetailValue::Int(invite.max_uses as i64)));
    let exp = match invite.expires_at {
        Some(t) => DetailValue::Time(t),
        None => DetailValue::Null,
    };
    d.push((owned("expires_at"), exp));
    AuditEvent::new(AuditEventType::InviteMinted)
        .with_actor(owner.id, owner.name.as_str())
        .with_session(session_id)
        .with_detail(d)
}

/// The rows of a redemption: the invite used and the participant
/// joining. A caller who was already a member leaves none, since the
/// first join already did.
pub fn redeem_events(outcome: &RedeemOutcome, as_guest: bool) -> (r: Option<(AuditEvent, AuditEvent)>)
    requires
        is_ascii_chars(outcome.invite.token_sha256@),
    ensures
        outcome.was_already_member <==> r is None,
        r matches Some((a, b)) ==> {
            &&& a.event_type == AuditEventType::InviteRedeemed
            &&& acted_by(a, outcome.user_id, outcome.user_name@)
            &&& in_session(a, outcome.invite.session_id@)
            &&& a.id is None
            &&& a.detail@.len() == 3
            &&& text_field(a.detail@[0], "token_prefix"@, prefix_label(outcome.invite.token_sha256@))
            &&& text_field(a.detail@[1], "role"@, role_name(outcome.invite.role))
            &&& a.detail@[2].0@ == "as_guest"@ && a.detail@[2].1 == DetailValue::Bool(as_guest)
            &&& b.event_type == AuditEventType::ParticipantJoined
            &&& acted_by(b, outcome.user_id, outcome.user_name@)
            &&& in_session(b, outcome.invite.session_id@)
            &&& b.id is None
            &&& b.detail@.len() == 1
            &&& text_field(b.detail@[0], "role"@, role_name(outcome.invite.role))
        },
{
    if outcome.was_already_member {
        return None;
    }
    let invite = &outcome.invite;
    let prefix = invite.token_prefix();
    let mut d1: Vec<(String, DetailValue)> = Vec::new();
    d1.push(text_entry("token_prefix", prefix.as_str()));
    d1.push(text_entry("role", invite.role.as_str()));
    d1.push((owned("as_guest"), DetailValue::Bool(as_guest)));
    let redeemed = AuditEvent::new(AuditEventType::InviteRedeemed)
        .with_actor(outcome.user_id, outcome.user_name.as_str())
        .with_session(invite.session_id.as_str())
        .with_detail(d1);
    let mut d2: Vec<(String, DetailValue)> = Vec::new();
    d2.push(text_entry("role", invite.role.as_str()));
    let joined = AuditEvent::new(AuditEventType::ParticipantJoined)
        .with_actor(outcome.user_id, outcome.user_name.as_str())
        .with_session(invite.session_id.as_str())
        .with_detail(d2);
    Some((redeemed, joined))
}

/// The row of a revoked invite.
pub fn invite_revoked_event(owner: &User, session_id: &str, revoked: &InviteToken) -> (e: AuditEvent)
    requires
        is_ascii_chars(revoked.token_sha256@),
    ensures
        e.event_type == AuditEventType::InviteRevoked,
        acted_by(e, owner.id, owner.name@),
        in_session(e, session_id@),
        e.id is None,
        e.detail@.len() == 2,
        text_field(e.detail@[0], "token_prefix"@, prefix_label(revoked.token_sha256@)),
        text_field(e.detail@[1], "role"@, role_name(revoked.role)),
{
    let prefix = revoked.token_prefix();
    let mut d: Vec<(String, DetailValue)> = Vec::new();
    d.push(text_entry("token_prefix", prefix.as_str()));
    d.push(text_entry("role", revoked.role.as_str()));
    AuditEvent::new(AuditEventType::InviteRevoked)
        .with_actor(owner.id, owner.name.as_str())
        .with_session(session_id)
        .with_detail(d)
}

} // verus!
