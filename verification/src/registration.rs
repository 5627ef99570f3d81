//! Self-served email registration: the pending row that carries a
//! one-time code until it is verified, and the rules that consume,
//! count or lock it.
use vstd::prelude::*;

use crate::error::Error;
use crate::session::{ApprovalState, Micros, Timestamp, User, UserId, MICROS_PER_SECOND};
use crate::text::str_eq;

verus! {

/// Wrong codes that lock a pending registration.
pub const OTP_FAILURE_LIMIT: i64 = 5;

/// Lifetime of a one-time code, in minutes.
pub const OTP_TTL_MINUTES: i64 = 15;

/// Minimum time between two codes sent to the same address, in seconds.
pub const OTP_RATE_LIMIT_SECS: i64 = 60;

/// A row of `pending_registrations`, keyed by the lower-cased email.
#[derive(Debug, Clone)]
pub struct PendingRegistration {
    pub email: String,
    pub display_name: String,
    pub password_hash: String,
    pub otp_code: String,
    pub otp_expires_at: Timestamp,
    pub otp_failure_count: i64,
    pub created_at: Timestamp,
    pub updated_at: Timestamp,
}

/// What verifying a code does to the pending row.
#[derive(Debug, Clone)]
pub enum VerifyStep {
    /// The code matched: the row is consumed and a user with this name
    /// and password hash is to be created.
    Consume { display_name: String, password_hash: String },
    /// Wrong code; the failure count is now `count`.
    Failure { count: i64 },
    /// Wrong code that hit the limit, or a row already locked.
    Locked,
    /// No eligible row (absent, or its code expired).
    Expired,
}

/// The row accepts a code at `now`: not expired and not locked.
pub open spec fn eligible(r: PendingRegistration, now: Timestamp) -> bool {
    r.otp_expires_at > now && r.otp_failure_count < OTP_FAILURE_LIMIT
}

/// The verification step for `code` at `now`.
pub open spec fn verify_step(row: Option<PendingRegistration>, code: Seq<char>, now: Timestamp) -> VerifyStep {
    match row {
        None => VerifyStep::Expired,
        Some(r) => if eligible(r, now) && r.otp_code@ == code {
            VerifyStep::Consume { display_name: r.display_name, password_hash: r.password_hash }
        } else if eligible(r, now) {
            if r.otp_failure_count + 1 >= OTP_FAILURE_LIMIT {
                VerifyStep::Locked
            } else {
                VerifyStep::Failure { count: (r.otp_failure_count + 1) as i64 }
            }
        } else if r.otp_failure_count >= OTP_FAILURE_LIMIT {
            VerifyStep::Locked
        } else {
            VerifyStep::Expired
        },
    }
}

/// The pending row after verifying `code` at `now`: consumed on a match,
/// one more failure on a wrong code against an eligible row, and
/// untouched otherwise (an expired row does not burn strikes).
pub open spec fn row_after_verify(row: Option<PendingRegistration>, code: Seq<char>, now: Timestamp) -> Option<PendingRegistration> {
    match row {
        None => None,
        Some(r) => if eligible(r, now) && r.otp_code@ == code {
            None
        } else if eligible(r, now) {
            Some(PendingRegistration { otp_failure_count: (r.otp_failure_count + 1) as i64, ..r })
        } else {
            Some(r)
        },
    }
}

/// Verifies `code` against the pending row of an address at `now`,
/// updating the row in place. Matching codes on an eligible row consume
/// it; wrong codes count towards the lock; expired or locked rows are
/// left alone.
pub fn verify_pending(row: &mut Option<PendingRegistration>, code: &str, now: Timestamp) -> (s: VerifyStep)
    ensures
        s == verify_step(*old(row), code@, now),
        *final(row) == row_after_verify(*old(row), code@, now),
{
    match row {
        None => VerifyStep::Expired,
        Some(r) => {
            let ok = r.otp_expires_at > now && r.otp_failure_count < OTP_FAILURE_LIMIT;
            if ok && str_eq(r.otp_code.as_str(), code) {
                let step = VerifyStep::Consume {
                    display_name: r.display_name.clone(),
                    password_hash: r.password_hash.clone(),
                };
                *row = None;
                step
            } else if ok {
                r.otp_failure_count = r.otp_failure_count + 1;
                if r.otp_failure_count >= OTP_FAILURE_LIMIT {
                    VerifyStep::Locked
                } else {
                    VerifyStep::Failure { count: r.otp_failure_count }
                }
            } else if r.otp_failure_count >= OTP_FAILURE_LIMIT {
                VerifyStep::Locked
            } else {
                VerifyStep::Expired
            }
        },
    }
}

/// `5 - count`, as reported with a failure.
pub fn remaining_codes(count: i64) -> (r: u32)
    requires
        0 <= count < OTP_FAILURE_LIMIT,
    ensures
        r == (OTP_FAILURE_LIMIT - count) as u32,
{
    (OTP_FAILURE_LIMIT - count) as u32
}

/// Inserts or refreshes the pending row of `email`. A re-registration
/// overwrites the name, hash and code in place and resets the failure
/// count (re-registering is how a locked signup recovers); the first
/// creation time is kept.
pub fn upsert_pending(
    row: &mut Option<PendingRegistration>,
    email: &str,
    display_name: &str,
    password_hash: &str,
    otp_code: &str,
    otp_expires_at: Timestamp,
    now: Timestamp,
)
    ensures
        *final(row) matches Some(r) && r.email@ == email@ && r.display_name@ == display_name@
            && r.password_hash@ == password_hash@ && r.otp_code@ == otp_code@ && r.otp_expires_at
            == otp_expires_at && r.otp_failure_count == 0 && r.updated_at == now && r.created_at == match *old(row) {
            Some(o) => o.created_at,
            None => now,
        },
{
    let created_at = match row {
        Some(o) => o.created_at,
        None => now,
    };
    *row = Some(PendingRegistration {
        email: email.to_owned(),
        display_name: display_name.to_owned(),
        password_hash: password_hash.to_owned(),
        otp_code: otp_code.to_owned(),
        otp_expires_at,
        otp_failure_count: 0,
        created_at,
        updated_at: now,
    });
}

/// The SMTP-failure rollback deletes the pending row only when it still
/// carries the code that was being sent, so a concurrent re-registration
/// keeps its fresh code.
pub fn rollback_pending(row: &mut Option<PendingRegistration>, otp_code: &str) -> (deleted: bool)
    ensures
        deleted == (*old(row) matches Some(r) && r.otp_code@ == otp_code@),
        deleted ==> *final(row) is None,
        !deleted ==> *final(row) == *old(row),
{
    let matches = match row {
        Some(r) => str_eq(r.otp_code.as_str(), otp_code),
        None => false,
    };
    if matches {
        *row = None;
    }
    matches
}

/// Abandoned signups are swept: a row last refreshed before `cutoff`.
pub fn is_abandoned(r: &PendingRegistration, cutoff: Timestamp) -> (b: bool)
    ensures
        b == (r.updated_at < cutoff),
{
    r.updated_at < cutoff
}

/// Why a registration request is silently turned into a no-op.
#[derive(Debug, Clone, Copy, PartialEq, Eq, Structural)]
pub enum RegisterRejection {
    /// The address already belongs to a user.
    AlreadyRegistered,
    /// A code was sent to the address less than a minute ago.
    RateLimited,
}

impl RegisterRejection {
    /// The `reason` recorded in the audit row.
    pub fn as_str(&self) -> (s: &'static str)
        ensures
            s@ == match *self {
                RegisterRejection::AlreadyRegistered => "already_registered"@,
                RegisterRejection::RateLimited => "rate_limited"@,
            },
    {
        match self {
            RegisterRejection::AlreadyRegistered => "already_registered",
            RegisterRejection::RateLimited => "rate_limited",
        }
    }
}

/// The rate-limit window, in microseconds.
pub open spec fn rate_window() -> int {
    OTP_RATE_LIMIT_SECS * MICROS_PER_SECOND
}

/// Decides whether a registration for an address proceeds. An address
/// that already has a user is rejected first; then one whose pending row
/// was refreshed less than a minute before `now`.
pub fn register_gate(user_exists: bool, last_pending: Option<Timestamp>, now: Timestamp) -> (r: Option<RegisterRejection>)
    ensures
        r == if user_exists {
            Some(RegisterRejection::AlreadyRegistered)
        } else if last_pending matches Some(last) && now - last < rate_window() {
            Some(RegisterRejection::RateLimited)
        } else {
            None
        },
{
    if user_exists {
        return Some(RegisterRejection::AlreadyRegistered);
    }
    match last_pending {
        Some(last) => {
            let window: i64 = OTP_RATE_LIMIT_SECS * MICROS_PER_SECOND;
            // `now - last < window`, computed without overflow.
            if (now as i128) - (last as i128) < (window as i128) {
                Some(RegisterRejection::RateLimited)
            } else {
                None
            }
        },
        None => None,
    }
}

/// The expiry of a code sent at `now`.
pub fn otp_expiry(now: Timestamp) -> (t: Timestamp)
    requires
        now + OTP_TTL_MINUTES * 60 * MICROS_PER_SECOND <= i64::MAX,
    ensures
        t == now + OTP_TTL_MINUTES * 60 * MICROS_PER_SECOND,
{
    now + OTP_TTL_MINUTES * 60 * MICROS_PER_SECOND
}

/// Five wrong codes lock a fresh pending row, after which even the
/// right code is refused.
pub proof fn lemma_five_wrong_codes_lock(r: PendingRegistration, wrong: Seq<char>, now: Timestamp)
    requires
        r.otp_failure_count == 0,
        r.otp_expires_at > now,
        r.otp_code@ != wrong,
    ensures
        ({
            let r1 = row_after_verify(Some(r), wrong, now);
            let r2 = row_after_verify(r1, wrong, now);
            let r3 = row_after_verify(r2, wrong, now);
            let r4 = row_after_verify(r3, wrong, now);
            &&& verify_step(Some(r), wrong, now) == (VerifyStep::Failure { count: 1 })
            &&& verify_step(r3, wrong, now) == (VerifyStep::Failure { count: 4 })
            &&& verify_step(r4, wrong, now) == VerifyStep::Locked
            &&& verify_step(row_after_verify(r4, wrong, now), r.otp_code@, now) == VerifyStep::Locked
            &&& row_after_verify(row_after_verify(r4, wrong, now), r.otp_code@, now) == row_after_verify(r4, wrong, now)
        }),
{
}

/// A wrong code never consumes a row, and the right code consumes an
/// eligible one.
pub proof fn lemma_only_the_code_consumes(row: Option<PendingRegistration>, code: Seq<char>, now: Timestamp)
    ensures
        (verify_step(row, code, now) is Consume) <==> (row matches Some(r) && eligible(r, now) && r.otp_code@ == code),
        (verify_step(row, code, now) is Consume) <==> (row is Some && row_after_verify(row, code, now) is None),
{
}

/// Codes against an expired row burn no strikes.
pub proof fn lemma_expired_row_untouched(r: PendingRegistration, code: Seq<char>, now: Timestamp)
    requires
        r.otp_expires_at <= now,
    ensures
        row_after_verify(Some(r), code, now) == Some(r),
        verify_step(Some(r), code, now) is Expired || verify_step(Some(r), code, now) is Locked,
{
}

} // verus!

verus! {

/// The account a verified code creates: not an admin, not scoped to a
/// session, with its address, and with sessions switched off until an
/// admin approves it.
pub fn registered_user(id: UserId, display_name: String, email: String, now: Timestamp) -> (u: User)
    ensures
        u.id == id,
        u.name == display_name,
        !u.is_admin,
        u.scoped_session_id is None,
        u.email == Some(email),
        !u.session_enabled,
        u.approval_state == ApprovalState::Pending,
        u.created_at == now,
        u.updated_at == now,
{
    User {
        id,
        name: display_name,
        is_admin: false,
        scoped_session_id: None,
        email: Some(email),
        session_enabled: false,
        approval_state: ApprovalState::Pending,
        created_at: now,
        updated_at: now,
    }
}

/// The error for a display name that was taken while the code was
/// pending.
pub fn display_name_taken(name: &str) -> (e: Error)
    ensures
        e matches Error::Conflict(m) && m@ == "display name '"@ + name@
            + "' is already taken — please re-register with a different name"@,
{
    let mut m = "display name '".to_owned();
    m.append(name);
    m.append("' is already taken — please re-register with a different name");
    Error::Conflict(m)
}

} // verus!
