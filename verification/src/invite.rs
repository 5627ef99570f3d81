//! Invite-token business rules: minting policy, redemption, and the
//! owner-facing summary of an invite.
use vstd::prelude::*;
use vstd::utf8::is_ascii_chars;

use crate::error::Error;
use crate::permission::Role;
use crate::session::{InviteToken, Micros, Session, SessionStatus, Timestamp, User};
use crate::text::{owned, str_eq};

verus! {

/// Hard cap on an invite's `max_uses`.
pub const MAX_INVITE_USES: i32 = 100;

/// Hard cap on an invite's lifetime, in minutes (one week).
pub const MAX_INVITE_TTL_MINUTES: i64 = 10080;

/// The lifetime cap in microseconds.
pub const MAX_INVITE_TTL_MICROS: i64 = 604_800_000_000;

/// Largest whole number of seconds (and so of minutes) a duration can hold.
pub const MAX_DURATION_SECS: i64 = 9_223_372_036_854_775;

/// What a caller asks for when minting an invite. Expiry precedence:
/// `expires_at` over `expires_in_secs` over `expires_in_minutes`.
#[derive(Debug, Clone)]
pub struct CreateInviteParams {
    pub role: Role,
    pub max_uses: i32,
    pub expires_in_minutes: Option<i64>,
    pub expires_in_secs: Option<i64>,
    pub expires_at: Option<Timestamp>,
}

/// A freshly minted invite; `token` is the only copy of the raw token.
#[derive(Debug, Clone)]
pub struct CreateInviteResult {
    pub session_id: String,
    pub token: String,
    pub role: Role,
    pub max_uses: i32,
    pub expires_at: Option<Timestamp>,
}

/// The outcome of a redemption; `issued_token` is set when a guest was
/// minted.
#[derive(Debug, Clone)]
pub struct RedeemResult {
    pub session_id: String,
    pub role: Role,
    pub issued_token: Option<String>,
}

/// Owner-facing view of an invite, without the raw token.
#[derive(Debug, Clone)]
pub struct InviteSummary {
    pub token_sha256: String,
    /// First eight characters of `token_sha256`: a stable label for the
    /// row that cannot redeem anything.
    pub token_prefix: String,
    pub session_id: String,
    pub role: Role,
    pub max_uses: i32,
    pub used_count: i32,
    /// `max_uses - used_count`, never below zero.
    pub remaining_uses: i32,
    pub expires_at: Option<Timestamp>,
    pub created_at: Option<Timestamp>,
}

/// The label of a digest in the management view: its first eight
/// characters (or all of it when shorter).
pub open spec fn summary_label(s: Seq<char>) -> Seq<char> {
    if s.len() <= 8 {
        s
    } else {
        s.take(8)
    }
}

/// The label of a full digest (64 hex digits from SHA-256) is eight
/// characters long and starts it.
pub proof fn lemma_summary_label_of_digest(s: Seq<char>)
    requires
        s.len() >= 8,
    ensures
        summary_label(s).len() == 8,
        summary_label(s) == s.subrange(0, 8),
{
}

fn summary_prefix(digest: &str) -> (p: String)
    requires
        is_ascii_chars(digest@),
    ensures
        p@ == summary_label(digest@),
{
    let n = digest.unicode_len();
    let k = if n < 8 { n } else { 8 };
    let r = digest.substring_ascii(0, k);
    proof {
        if n <= 8 {
            assert(digest@.subrange(0, k as int) =~= digest@);
        }
    }
    r.to_owned()
}

impl InviteSummary {
    pub fn from_token(t: InviteToken) -> (s: InviteSummary)
        requires
            is_ascii_chars(t.token_sha256@),
            i32::MIN <= t.max_uses - t.used_count <= i32::MAX,
        ensures
            s.token_sha256@ == t.token_sha256@,
            s.token_prefix@ == summary_label(t.token_sha256@),
            s.session_id@ == t.session_id@,
            s.role == t.role,
            s.max_uses == t.max_uses,
            s.used_count == t.used_count,
            s.remaining_uses == if t.max_uses - t.used_count > 0 {
                t.max_uses - t.used_count
            } else {
                0
            },
            s.expires_at == t.expires_at,
            s.created_at == t.created_at,
    {
        let d = t.max_uses - t.used_count;
        let remaining = if d > 0 { d } else { 0 };
        let token_prefix = summary_prefix(t.token_sha256.as_str());
        InviteSummary {
            token_sha256: t.token_sha256,
            token_prefix,
            session_id: t.session_id,
            role: t.role,
            max_uses: t.max_uses,
            used_count: t.used_count,
            remaining_uses: remaining,
            expires_at: t.expires_at,
            created_at: t.created_at,
        }
    }
}

/// The message of an invalid-input error.
pub open spec fn invalid(e: Error, m: Seq<char>) -> bool {
    e matches Error::InvalidInput(x) && x@ == m
}

/// The expiry a mint request resolves to, or the reason it is refused.
pub open spec fn invite_policy(p: CreateInviteParams, now: Timestamp) -> Result<Option<int>, Seq<char>> {
    if p.role is Owner {
        Err("cannot invite with Owner role"@)
    } else if p.max_uses < 1 || p.max_uses > MAX_INVITE_USES {
        Err("max_uses must be between 1 and 100"@)
    } else {
        match p.expires_at {
            Some(at) => if at <= now {
                Err("expires_at must be in the future"@)
            } else if at > now + MAX_INVITE_TTL_MICROS {
                Err("expires_at must not exceed 10080 minutes from now"@)
            } else {
                Ok(Some(at as int))
            },
            None => match p.expires_in_secs {
                Some(secs) => if secs <= 0 {
                    Err("expires_in_secs must be positive"@)
                } else {
                    Ok(Some(now + min_int(secs * 1_000_000, MAX_INVITE_TTL_MICROS as int)))
                },
                None => match p.expires_in_minutes {
                    Some(m) => if m <= 0 {
                        Err("expires_in_minutes must be positive"@)
                    } else {
                        Ok(Some(now + min_int(m * 60_000_000, MAX_INVITE_TTL_MICROS as int)))
                    },
                    None => Ok(None),
                },
            },
        }
    }
}

/// How long an accepted invite lives. An explicit end in the coming
/// week is kept as given. Otherwise a lifetime in seconds counts a
/// million microseconds per second, one in minutes sixty seconds per
/// minute, either capped at one week (10080 minutes); with neither, the
/// invite never expires. Seconds win over minutes.
pub proof fn lemma_invite_lifetime(p: CreateInviteParams, now: Timestamp)
    requires
        !(p.role is Owner),
        1 <= p.max_uses <= 100,
    ensures
        p.expires_at is Some && now < p.expires_at->0 <= now + 7 * 24 * 60 * 60 * 1_000_000 ==> invite_policy(
            p,
            now,
        ) == Ok::<Option<int>, Seq<char>>(Some(p.expires_at->0 as int)),
        p.expires_at is None && p.expires_in_secs is Some && 0 < p.expires_in_secs->0 ==> invite_policy(p, now)
            == Ok::<Option<int>, Seq<char>>(
            Some(
                now + if p.expires_in_secs->0 < 7 * 24 * 60 * 60 {
                    p.expires_in_secs->0 * 1_000_000
                } else {
                    7 * 24 * 60 * 60 * 1_000_000int
                },
            ),
        ),
        p.expires_at is None && p.expires_in_secs is None && p.expires_in_minutes is Some && 0
            < p.expires_in_minutes->0 ==> invite_policy(p, now) == Ok::<Option<int>, Seq<char>>(
            Some(
                now + if p.expires_in_minutes->0 < 7 * 24 * 60 {
                    p.expires_in_minutes->0 * 60 * 1_000_000
                } else {
                    7 * 24 * 60 * 60 * 1_000_000int
                },
            ),
        ),
        p.expires_at is None && p.expires_in_secs is None && p.expires_in_minutes is None ==> invite_policy(p, now)
            == Ok::<Option<int>, Seq<char>>(None),
{
}

pub open spec fn min_int(a: int, b: int) -> int {
    if a < b {
        a
    } else {
        b
    }
}

fn reject(m: &str) -> (e: Error)
    ensures
        invalid(e, m@),
{
    Error::InvalidInput(owned(m))
}

/// Applies the minting policy at `now`: only operator and viewer
/// invites, 1 to 100 uses, and an expiry at most a week away. An
/// absolute expiry out of range is refused; a relative one is clamped
/// to the week; a non-positive relative one is refused.
pub fn resolve_invite_params(p: &CreateInviteParams, now: Timestamp) -> (r: Result<Option<Timestamp>, Error>)
    requires
        now + MAX_INVITE_TTL_MICROS <= i64::MAX,
        p.expires_at is None ==> (p.expires_in_secs matches Some(s) ==> s <= MAX_DURATION_SECS),
        p.expires_at is None && p.expires_in_secs is None ==> (p.expires_in_minutes matches Some(m) ==> m * 60 <= MAX_DURATION_SECS),
    ensures
        match invite_policy(*p, now) {
            Ok(e) => r matches Ok(x) && e == match x {
                Some(t) => Some(t as int),
                None => None,
            },
            Err(m) => r matches Err(err) && invalid(err, m),
        },
{
    if p.role == Role::Owner {
        return Err(reject("cannot invite with Owner role"));
    }
    if p.max_uses < 1 || p.max_uses > MAX_INVITE_USES {
        return Err(reject("max_uses must be between 1 and 100"));
    }
    match p.expires_at {
        Some(at) => {
            if at <= now {
                return Err(reject("expires_at must be in the future"));
            }
            if at > now + MAX_INVITE_TTL_MICROS {
                return Err(reject("expires_at must not exceed 10080 minutes from now"));
            }
            Ok(Some(at))
        },
        None => match p.expires_in_secs {
            Some(secs) => {
                if secs <= 0 {
                    return Err(reject("expires_in_secs must be positive"));
                }
                let clamped: i64 = if secs >= 604800 { MAX_INVITE_TTL_MICROS } else { secs * 1_000_000 };
                Ok(Some(now + clamped))
            },
            None => match p.expires_in_minutes {
                Some(m) => {
                    if m <= 0 {
                        return Err(reject("expires_in_minutes must be positive"));
                    }
                    let clamped: i64 = if m >= MAX_INVITE_TTL_MINUTES { MAX_INVITE_TTL_MICROS } else { m * 60_000_000 };
                    Ok(Some(now + clamped))
                },
                None => Ok(None),
            },
        },
    }
}

/// The invite has expired at `now` (as the diagnostic reports it).
pub open spec fn expired_at(i: InviteToken, now: Timestamp) -> bool {
    i.expires_at matches Some(e) && e < now
}

/// Explains why a live-session invite cannot be used: expired, then
/// exhausted.
pub fn check_invite_validity(invite: &InviteToken, now: Timestamp) -> (r: Result<(), Error>)
    ensures
        r is Ok <==> (!expired_at(*invite, now) && invite.used_count < invite.max_uses),
        r matches Err(e) ==> if expired_at(*invite, now) {
            invalid(e, "invite token has expired"@)
        } else {
            invalid(e, "invite token has been fully used"@)
        },
{
    if let Some(e) = invite.expires_at {
        if e < now {
            return Err(reject("invite token has expired"));
        }
    }
    if invite.used_count >= invite.max_uses {
        return Err(reject("invite token has been fully used"));
    }
    Ok(())
}

/// The invite can be consumed at `now`: it has uses left, has not
/// expired, its session is active, and (for an authenticated caller)
/// the caller is not already an active participant.
pub open spec fn consumable(
    invite: InviteToken,
    session: Option<SessionStatus>,
    existing: bool,
    already_member: bool,
    now: Timestamp,
) -> bool {
    &&& invite.used_count < invite.max_uses
    &&& (invite.expires_at matches Some(e) ==> e > now)
    &&& session == Some(SessionStatus::Active)
    &&& !(existing && already_member)
}

/// The decision a redemption reaches inside its transaction.
#[derive(Debug)]
pub enum RedeemStep {
    /// Consume one use and add the caller as a participant.
    Consume,
    /// The authenticated caller is already a participant: nothing is
    /// consumed and the invite is returned as it is.
    AlreadyMember,
    /// The redemption is refused.
    Reject(Error),
}

/// Decides a redemption. `invite` is the row the token hashes to,
/// `session` the status of its session (`None` when the session row is
/// gone), `existing` whether the caller is authenticated, and
/// `already_member` whether that caller is an active participant.
pub fn redeem_step(
    invite: &Option<InviteToken>,
    session: Option<SessionStatus>,
    existing: bool,
    already_member: bool,
    now: Timestamp,
) -> (s: RedeemStep)
    ensures
        match *invite {
            None => s matches RedeemStep::Reject(e) && invalid(e, "invalid invite token"@),
            Some(i) => if consumable(i, session, existing, already_member, now) {
                s is Consume
            } else if session is None {
                s matches RedeemStep::Reject(e) && (e matches Error::SessionNotFound(id) && id@ == i.session_id@)
            } else if session != Some(SessionStatus::Active) {
                s matches RedeemStep::Reject(e) && (e matches Error::SessionClosed(id) && id@ == i.session_id@)
            } else if existing && already_member {
                s is AlreadyMember
            } else if expired_at(i, now) {
                s matches RedeemStep::Reject(e) && invalid(e, "invite token has expired"@)
            } else {
                s matches RedeemStep::Reject(e) && invalid(e, "invite token has been fully used"@)
            },
        },
{
    match invite {
        None => RedeemStep::Reject(reject("invalid invite token")),
        Some(i) => {
            let live = match i.expires_at {
                Some(e) => e > now,
                None => true,
            };
            let active = match session {
                Some(SessionStatus::Active) => true,
                _ => false,
            };
            if i.used_count < i.max_uses && live && active && !(existing && already_member) {
                return RedeemStep::Consume;
            }
            match session {
                None => return RedeemStep::Reject(Error::SessionNotFound(i.session_id.clone())),
                Some(SessionStatus::Closed) => return RedeemStep::Reject(Error::SessionClosed(i.session_id.clone())),
                Some(SessionStatus::Active) => {},
            }
            if existing && already_member {
                return RedeemStep::AlreadyMember;
            }
            match check_invite_validity(i, now) {
                Err(e) => RedeemStep::Reject(e),
                Ok(()) => RedeemStep::Reject(reject("invite token has been fully used")),
            }
        },
    }
}

/// The invite row after a consuming redemption.
pub open spec fn consumed(i: InviteToken) -> InviteToken {
    InviteToken { used_count: (i.used_count + 1) as i32, ..i }
}

/// Consumes one use of an invite that `redeem_step` allowed.
pub fn consume(invite: &mut InviteToken)
    requires
        old(invite).used_count < old(invite).max_uses,
    ensures
        *final(invite) == consumed(*old(invite)),
{
    invite.used_count = invite.used_count + 1;
}

/// Redemptions never push an invite past its use limit: consuming a
/// consumable invite whose count was within the limit keeps it within.
pub proof fn lemma_redeem_respects_max_uses(
    i: InviteToken,
    session: Option<SessionStatus>,
    existing: bool,
    already_member: bool,
    now: Timestamp,
)
    requires
        consumable(i, session, existing, already_member, now),
    ensures
        consumed(i).used_count <= consumed(i).max_uses,
        consumed(i).used_count == i.used_count + 1,
        session == Some(SessionStatus::Active),
{
}

/// A closed or missing session, or an exhausted or expired invite,
/// never consumes a use.
pub proof fn lemma_dead_invites_are_not_consumed(
    i: InviteToken,
    session: Option<SessionStatus>,
    existing: bool,
    already_member: bool,
    now: Timestamp,
)
    requires
        session != Some(SessionStatus::Active) || i.used_count >= i.max_uses || (i.expires_at matches Some(e) && e <= now),
    ensures
        !consumable(i, session, existing, already_member, now),
{
}

/// A guest scoped to another session than the invite's.
pub open spec fn scope_mismatch(user: Option<User>, preview: InviteToken) -> bool {
    user matches Some(u) && (u.scoped_session_id matches Some(s) && s@ != preview.session_id@)
}

pub open spec fn session_is_active(session: Option<Session>) -> bool {
    session matches Some(sess) && sess.status == SessionStatus::Active
}

/// The checks a redemption makes before its transaction: a scoped guest
/// may only redeem invites of its own session, and the session must
/// exist and be active.
pub fn redeem_precheck(user: &Option<User>, preview: &InviteToken, session: &Option<Session>) -> (r: Result<(), Error>)
    ensures
        r is Ok <==> (!scope_mismatch(*user, *preview) && session_is_active(*session)),
        r matches Err(e) ==> if scope_mismatch(*user, *preview) {
            e matches Error::PermissionDenied(m) && m@ == "scoped guest cannot redeem invite for a different session"@
        } else if session is None {
            e matches Error::SessionNotFound(id) && id@ == preview.session_id@
        } else {
            e matches Error::SessionClosed(id) && id@ == preview.session_id@
        },
{
    if let Some(u) = user {
        if let Some(scope) = &u.scoped_session_id {
            if !str_eq(preview.session_id.as_str(), scope.as_str()) {
                return Err(Error::PermissionDenied(owned("scoped guest cannot redeem invite for a different session")));
            }
        }
    }
    match session {
        None => Err(Error::SessionNotFound(preview.session_id.clone())),
        Some(s) => {
            if s.status != SessionStatus::Active {
                Err(Error::SessionClosed(preview.session_id.clone()))
            } else {
                Ok(())
            }
        },
    }
}

/// A user who already takes part in the invite's session keeps the role
/// they hold there: the redemption answers with that role at once, spends
/// no use of the invite and issues no token. `existing_role` is the
/// caller's active role in that session, if any.
pub fn member_shortcut(preview: &InviteToken, existing_role: Option<Role>) -> (r: Option<RedeemResult>)
    ensures
        match existing_role {
            Some(role) => r matches Some(res) && res.session_id@ == preview.session_id@ && res.role == role
                && res.issued_token is None,
            None => r is None,
        },
{
    match existing_role {
        Some(role) => Some(RedeemResult { session_id: preview.session_id.clone(), role, issued_token: None }),
        None => None,
    }
}

/// Revocation only touches an invite of the given session; anything
/// else (unknown digest, another session's invite) is a silent no-op.
pub fn revocable(row: Option<InviteToken>, session_id: &str) -> (r: Option<InviteToken>)
    ensures
        match row {
            Some(i) => if i.session_id@ == session_id@ {
                r == Some(i)
            } else {
                r is None
            },
            None => r is None,
        },
{
    match row {
        Some(i) => {
            if str_eq(i.session_id.as_str(), session_id) {
                Some(i)
            } else {
                None
            }
        },
        None => None,
    }
}

} // verus!
