//! Account rules: password login with its lockout, one-time-code
//! verification, password change, and the audit rows these leave. Every
//! failure a caller sees is the same generic error; only the audit rows
//! tell the reasons apart.
use vstd::prelude::*;
use vstd::string::*;

use crate::audit::{AuditEvent, AuditEventType, DetailValue};
use crate::auth::{argon2_accepts, phc_parses, MAX_HASHABLE_PASSWORD_CHARS, uuid_text, user_id_text, hash_password, verify_password};
use crate::error::{message_of, status_of, Error};
use crate::registration::{OTP_TTL_MINUTES, RegisterRejection};
use crate::session::{LoginFailureOutcome, Micros, PendingVerifyResult, Timestamp, User, UserId};
use crate::text::{decimal, owned, push_decimal};
use crate::throttle::{after_failures, idle_throttle, lemma_failure_sequence, live_lock};

verus! {

/// The one message every failed login or code verification answers.
pub const GENERIC_AUTH_ERROR: &'static str = "invalid email or code";

/// How long five bad passwords lock an account.
pub const LOGIN_LOCKOUT_MINUTES: i64 = 15;

/// The lockout, in microseconds.
pub const LOGIN_LOCKOUT_MICROS: Micros = 900_000_000;

/// Outgoing mail settings.
#[derive(Debug, Clone)]
pub struct SmtpConfig {
    pub host: String,
    pub port: u16,
    pub username: String,
    pub password: String,
    pub from: String,
}

/// The error a caller sees for every failed login or verification.
pub open spec fn is_generic_auth_error(e: Error) -> bool {
    e matches Error::Auth(m) && m@ == "invalid email or code"@
}

pub fn generic_auth_error() -> (e: Error)
    ensures
        is_generic_auth_error(e),
{
    Error::Auth(owned("invalid email or code"))
}

/// A password is accepted when a hash is stored, it parses, and Argon2
/// accepts the password for it.
pub open spec fn password_ok(password: Seq<char>, hash: Option<String>) -> bool {
    hash matches Some(h) && phc_parses(h@) && argon2_accepts(password, h@)
}

/// Checks a password against the stored hash, if there is one.
pub fn check_password(password: &str, hash: &Option<String>) -> (b: bool)
    ensures
        b == password_ok(password@, *hash),
{
    match hash {
        None => false,
        Some(h) => verify_password(password, h.as_str()).is_ok(),
    }
}

/// How a password login ends.
#[derive(Debug, Clone, Copy, PartialEq, Eq, Structural)]
pub enum LoginVerdict {
    /// No user has the address.
    UnknownEmail,
    /// The account is locked until the given time; the password is not
    /// even checked.
    Locked { until: Timestamp },
    /// Wrong password, or no password on the account: a failure is
    /// counted.
    BadPassword,
    /// The password is right: failures are cleared and a token issued.
    Accepted,
}

pub open spec fn login_verdict_of(user_found: bool, lockout: Option<Timestamp>, password: Seq<char>, hash: Option<String>) -> LoginVerdict {
    if !user_found {
        LoginVerdict::UnknownEmail
    } else if lockout is Some {
        LoginVerdict::Locked { until: lockout->0 }
    } else if password_ok(password, hash) {
        LoginVerdict::Accepted
    } else {
        LoginVerdict::BadPassword
    }
}

/// Decides a login: an unknown address first, then a live lockout
/// (`lockout`, as the lockout check reports it), then the password
/// against the stored hash.
pub fn login_verdict(user_found: bool, lockout: Option<Timestamp>, password: &str, hash: &Option<String>) -> (v: LoginVerdict)
    ensures
        v == login_verdict_of(user_found, lockout, password@, *hash),
{
    if !user_found {
        return LoginVerdict::UnknownEmail;
    }
    if let Some(u) = lockout {
        return LoginVerdict::Locked { until: u };
    }
    if check_password(password, hash) {
        LoginVerdict::Accepted
    } else {
        LoginVerdict::BadPassword
    }
}

/// What the login answers: the new token when accepted, else the generic
/// error.
pub fn login_answer(v: LoginVerdict, token: String) -> (r: Result<String, Error>)
    ensures
        v == LoginVerdict::Accepted ==> r == Ok::<String, Error>(token),
        v != LoginVerdict::Accepted ==> (r matches Err(e) && is_generic_auth_error(e)),
{
    match v {
        LoginVerdict::Accepted => Ok(token),
        _ => Err(generic_auth_error()),
    }
}

/// The `reason` of an `auth.login_failed` row.
pub open spec fn login_reason_name(v: LoginVerdict) -> Seq<char> {
    match v {
        LoginVerdict::UnknownEmail => "unknown_email"@,
        LoginVerdict::Locked { .. } => "locked"@,
        LoginVerdict::BadPassword => "bad_password"@,
        LoginVerdict::Accepted => Seq::empty(),
    }
}

/// What a counted bad password reports: the failures left and, when it
/// locked the account, until when. A failure that could not be recorded
/// reports neither.
pub open spec fn failure_report(o: Option<LoginFailureOutcome>) -> (Option<u32>, Option<Timestamp>) {
    match o {
        Some(LoginFailureOutcome::Recorded { remaining }) => (Some(remaining), None),
        Some(LoginFailureOutcome::Locked { until }) => (Some(0), Some(until)),
        None => (None, None),
    }
}

pub fn bad_password_report(o: Option<LoginFailureOutcome>) -> (r: (Option<u32>, Option<Timestamp>))
    ensures
        r == failure_report(o),
{
    match o {
        Some(LoginFailureOutcome::Recorded { remaining }) => (Some(remaining), None),
        Some(LoginFailureOutcome::Locked { until }) => (Some(0), Some(until)),
        None => (None, None),
    }
}

/// A text detail field.
pub open spec fn text_field(f: (String, DetailValue), key: Seq<char>, value: Seq<char>) -> bool {
    &&& f.0@ == key
    &&& f.1 matches DetailValue::Str(s) && s@ == value
}

fn text_entry(key: &str, value: &str) -> (f: (String, DetailValue))
    ensures
        text_field(f, key@, value@),
{
    (owned(key), DetailValue::Str(owned(value)))
}

/// The `auth.login_failed` row for a refused login: the address, the
/// reason, the failures left when a failure was counted, and the end of
/// the lock when this attempt met or set one. `actor` is the account's
/// id and name, when the address has an account.
pub fn login_failed_event(
    actor: Option<(UserId, &str)>,
    email: &str,
    v: LoginVerdict,
    remaining: Option<u32>,
    locked_until: Option<Timestamp>,
) -> (e: AuditEvent)
    requires
        v != LoginVerdict::Accepted,
    ensures
        e.event_type == AuditEventType::AuthLoginFailed,
        e.id is None && e.session_id is None,
        match actor {
            Some((id, name)) => e.actor_id == Some(id) && (e.actor_name matches Some(n) && n@ == name@),
            None => e.actor_id is None && e.actor_name is None,
        },
        e.detail@.len() == 2 + (if remaining is Some { 1int } else { 0 }) + (if locked_until is Some { 1int } else { 0 }),
        text_field(e.detail@[0], "email"@, email@),
        text_field(e.detail@[1], "reason"@, login_reason_name(v)),
        remaining matches Some(k) ==> e.detail@[2].0@ == "remaining"@ && e.detail@[2].1 == DetailValue::Int(k as i64),
        locked_until matches Some(t) ==> e.detail@[e.detail@.len() - 1].0@ == "locked_until"@
            && e.detail@[e.detail@.len() - 1].1 == DetailValue::Time(t),
{
    let reason = match v {
        LoginVerdict::UnknownEmail => "unknown_email",
        LoginVerdict::Locked { .. } => "locked",
        _ => "bad_password",
    };
    let mut detail: Vec<(String, DetailValue)> = Vec::new();
    detail.push(text_entry("email", email));
    detail.push(text_entry("reason", reason));
    if let Some(k) = remaining {
        detail.push((owned("remaining"), DetailValue::Int(k as i64)));
    }
    if let Some(t) = locked_until {
        detail.push((owned("locked_until"), DetailValue::Time(t)));
    }
    let mut event = AuditEvent::new(AuditEventType::AuthLoginFailed).with_detail(detail);
    if let Some((id, name)) = actor {
        event = event.with_actor(id, name);
    }
    event
}

/// The `auth.register_rejected` row for a registration silently turned
/// into a no-op.
pub fn register_rejected_event(email: &str, why: RegisterRejection) -> (e: AuditEvent)
    ensures
        e.event_type == AuditEventType::AuthRegisterRejected,
        e.id is None && e.actor_id is None && e.actor_name is None && e.session_id is None,
        e.detail@.len() == 2,
        text_field(e.detail@[0], "email"@, email@),
        text_field(
            e.detail@[1],
            "reason"@,
            match why {
                RegisterRejection::AlreadyRegistered => "already_registered"@,
                RegisterRejection::RateLimited => "rate_limited"@,
            },
        ),
{
    let mut detail: Vec<(String, DetailValue)> = Vec::new();
    detail.push(text_entry("email", email));
    detail.push(text_entry("reason", why.as_str()));
    AuditEvent::new(AuditEventType::AuthRegisterRejected).with_detail(detail)
}

/// Why a code verification failed, as the audit row records it.
#[derive(Debug, Clone, Copy, PartialEq, Eq, Structural)]
pub enum VerifyFailure {
    /// The pending display name was taken meanwhile.
    DisplayNameConflict,
    /// Wrong code; `remaining` more lock the row.
    BadCode { remaining: u32 },
    Locked,
    ExpiredOrUnknown,
}

pub open spec fn verify_failure_name(f: VerifyFailure) -> Seq<char> {
    match f {
        VerifyFailure::DisplayNameConflict => "display_name_conflict"@,
        VerifyFailure::BadCode { .. } => "bad_code"@,
        VerifyFailure::Locked => "locked"@,
        VerifyFailure::ExpiredOrUnknown => "expired_or_unknown"@,
    }
}

/// How a code verification ends.
#[derive(Debug)]
pub enum VerifyOutcome {
    /// The account was created; its first token is handed back.
    Completed { user: User, raw_token: String },
    /// Refused with the generic error; the reason goes to the audit log.
    Refused(VerifyFailure),
    /// The store failed; the error goes back as it is.
    Failed(Error),
}

/// Classifies what the store answered to a code: a display-name
/// conflict is a refusal like a wrong code; other store errors pass
/// through.
pub fn classify_verify(r: Result<PendingVerifyResult, Error>) -> (o: VerifyOutcome)
    ensures
        match r {
            Ok(PendingVerifyResult::Success { user, raw_token }) => o matches VerifyOutcome::Completed {
                user: u,
                raw_token: t,
            } && u == user && t == raw_token,
            Ok(PendingVerifyResult::Failure { remaining }) => o matches VerifyOutcome::Refused(f)
                && f == VerifyFailure::BadCode { remaining },
            Ok(PendingVerifyResult::Locked) => o matches VerifyOutcome::Refused(f) && f
                == VerifyFailure::Locked,
            Ok(PendingVerifyResult::Expired) => o matches VerifyOutcome::Refused(f) && f
                == VerifyFailure::ExpiredOrUnknown,
            Err(Error::Conflict(_)) => o matches VerifyOutcome::Refused(f) && f
                == VerifyFailure::DisplayNameConflict,
            Err(e) => o matches VerifyOutcome::Failed(x) && x == e,
        },
{
    match r {
        Ok(PendingVerifyResult::Success { user, raw_token }) => VerifyOutcome::Completed { user, raw_token },
        Ok(PendingVerifyResult::Failure { remaining }) => VerifyOutcome::Refused(VerifyFailure::BadCode { remaining }),
        Ok(PendingVerifyResult::Locked) => VerifyOutcome::Refused(VerifyFailure::Locked),
        Ok(PendingVerifyResult::Expired) => VerifyOutcome::Refused(VerifyFailure::ExpiredOrUnknown),
        Err(Error::Conflict(_)) => VerifyOutcome::Refused(VerifyFailure::DisplayNameConflict),
        Err(e) => VerifyOutcome::Failed(e),
    }
}

/// What the verification answers: the token, the generic error, or the
/// store's error.
pub fn verify_answer(o: VerifyOutcome) -> (r: Result<String, Error>)
    ensures
        match o {
            VerifyOutcome::Completed { raw_token, .. } => r == Ok::<String, Error>(raw_token),
            VerifyOutcome::Refused(_) => r matches Err(e) && is_generic_auth_error(e),
            VerifyOutcome::Failed(e) => r matches Err(x) && x == e,
        },
{
    match o {
        VerifyOutcome::Completed { raw_token, .. } => Ok(raw_token),
        VerifyOutcome::Refused(_) => Err(generic_auth_error()),
        VerifyOutcome::Failed(e) => Err(e),
    }
}

/// The `auth.verify_failed` row: the address, the reason, and for a
/// wrong code the codes left.
pub fn verify_failed_event(email: &str, f: VerifyFailure) -> (e: AuditEvent)
    ensures
        e.event_type == AuditEventType::AuthVerifyFailed,
        e.id is None && e.actor_id is None && e.actor_name is None && e.session_id is None,
        text_field(e.detail@[0], "email"@, email@),
        text_field(e.detail@[1], "reason"@, verify_failure_name(f)),
        match f {
            VerifyFailure::BadCode { remaining } => e.detail@.len() == 3 && e.detail@[2].0@
                == "remaining"@ && e.detail@[2].1 == DetailValue::Int(remaining as i64),
            _ => e.detail@.len() == 2,
        },
{
    let reason = match f {
        VerifyFailure::DisplayNameConflict => "display_name_conflict",
        VerifyFailure::BadCode { .. } => "bad_code",
        VerifyFailure::Locked => "locked",
        VerifyFailure::ExpiredOrUnknown => "expired_or_unknown",
    };
    let mut detail: Vec<(String, DetailValue)> = Vec::new();
    detail.push(text_entry("email", email));
    detail.push(text_entry("reason", reason));
    if let VerifyFailure::BadCode { remaining } = f {
        detail.push((owned("remaining"), DetailValue::Int(remaining as i64)));
    }
    AuditEvent::new(AuditEventType::AuthVerifyFailed).with_detail(detail)
}

/// The `auth.register_completed` row: the new user is its actor.
pub fn register_completed_event(user_id: UserId, user_name: &str, email: &str) -> (e: AuditEvent)
    ensures
        e.event_type == AuditEventType::AuthRegisterCompleted,
        e.actor_id == Some(user_id),
        e.actor_name matches Some(n) && n@ == user_name@,
        e.id is None && e.session_id is None,
        e.detail@.len() == 1,
        text_field(e.detail@[0], "email"@, email@),
{
    let mut detail: Vec<(String, DetailValue)> = Vec::new();
    detail.push(text_entry("email", email));
    AuditEvent::new(AuditEventType::AuthRegisterCompleted).with_detail(detail).with_actor(
        user_id,
        user_name,
    )
}

/// The row an admin leaves by enabling or disabling an account.
pub fn session_access_event(actor_id: UserId, actor_name: &str, target: &User, enabled: bool) -> (e: AuditEvent)
    ensures
        e.event_type == if enabled {
            AuditEventType::AuthUserEnabled
        } else {
            AuditEventType::AuthUserDisabled
        },
        e.actor_id == Some(actor_id),
        e.actor_name matches Some(n) && n@ == actor_name@,
        e.id is None && e.session_id is None,
        e.detail@.len() == 2,
        text_field(e.detail@[0], "target_user_id"@, uuid_text(target.id.0)),
        text_field(e.detail@[1], "target_user_name"@, target.name@),
{
    let event_type = if enabled {
        AuditEventType::AuthUserEnabled
    } else {
        AuditEventType::AuthUserDisabled
    };
    let id_text = user_id_text(target.id);
    let mut detail: Vec<(String, DetailValue)> = Vec::new();
    detail.push(text_entry("target_user_id", id_text.as_str()));
    detail.push(text_entry("target_user_name", target.name.as_str()));
    AuditEvent::new(event_type).with_actor(actor_id, actor_name).with_detail(detail)
}

/// Registration needs outgoing mail.
pub fn require_smtp(smtp: &Option<SmtpConfig>) -> (r: Result<(), Error>)
    ensures
        r is Ok <==> smtp is Some,
        r matches Err(e) ==> e matches Error::ServiceUnavailable(m) && m@
            == "This instance has not configured email sending. Contact the administrator."@,
{
    match smtp {
        Some(_) => Ok(()),
        None => Err(Error::ServiceUnavailable(owned(
            "This instance has not configured email sending. Contact the administrator.",
        ))),
    }
}

/// The subject of the code mail.
pub const OTP_EMAIL_SUBJECT: &'static str = "Your Telepair verification code";

/// The body of the code mail.
pub open spec fn otp_email_text(code: Seq<char>) -> Seq<char> {
    "Your verification code is: "@ + code + "\n\nThis code expires in "@ + decimal(OTP_TTL_MINUTES as nat)
        + " minutes.\nIf you did not request this, ignore this email."@
}

pub fn otp_email_body(code: &str) -> (b: String)
    ensures
        b@ == otp_email_text(code@),
{
    let mut b = owned("Your verification code is: ");
    b.append(code);
    b.append("\n\nThis code expires in ");
    push_decimal(&mut b, OTP_TTL_MINUTES as u64);
    b.append(" minutes.\nIf you did not request this, ignore this email.");
    b
}

/// Checks the current password of a password change and hashes the new
/// one. An account without a password cannot change it; a wrong current
/// password is refused.
pub fn change_password_plan(current: &str, new_password: &str, stored: &Option<String>) -> (r: Result<String, Error>)
    ensures
        stored is None ==> (r matches Err(e) && e matches Error::InvalidInput(m) && m@
            == "This account does not use password authentication."@),
        stored is Some && !password_ok(current@, *stored) ==> (r matches Err(e) && e matches Error::Auth(
            m,
        ) && m@ == "Current password is incorrect."@),
        r matches Ok(h) ==> password_ok(current@, *stored) && phc_parses(h@) && argon2_accepts(
            new_password@,
            h@,
        ),
        password_ok(current@, *stored) && r is Err ==> (r matches Err(e) && e is Internal),
        password_ok(current@, *stored) && new_password@.len() <= MAX_HASHABLE_PASSWORD_CHARS ==> r is Ok,
{
    match stored {
        None => Err(Error::InvalidInput(owned("This account does not use password authentication."))),
        Some(_) => {
            if !check_password(current, stored) {
                return Err(Error::Auth(owned("Current password is incorrect.")));
            }
            hash_password(new_password)
        },
    }
}

} // verus!

verus! {

/// A live lockout refuses the login whatever the password: even the
/// right one does not get through, and no hash is computed.
pub proof fn lemma_lockout_ignores_password(
    until: Timestamp,
    password: Seq<char>,
    hash: Option<String>,
)
    ensures
        login_verdict_of(true, Some(until), password, hash) == (LoginVerdict::Locked { until }),
{
}

/// A password logs in against the hash made of it: whatever
/// `hash_password` returned for `password` is accepted for the same
/// password on an unlocked account.
pub proof fn lemma_hashed_password_logs_in(password: Seq<char>, h: String)
    requires
        phc_parses(h@),
        argon2_accepts(password, h@),
    ensures
        login_verdict_of(true, None, password, Some(h)) == LoginVerdict::Accepted,
{
}

/// An unknown address, a locked account and a wrong password all look the
/// same to the caller.
pub proof fn lemma_refusals_look_alike(a: LoginVerdict, b: LoginVerdict, ea: Error, eb: Error)
    requires
        a != LoginVerdict::Accepted,
        b != LoginVerdict::Accepted,
        is_generic_auth_error(ea),
        is_generic_auth_error(eb),
    ensures
        status_of(ea) == status_of(eb),
        message_of(ea) == message_of(eb),
{
}

} // verus!

verus! {

/// The right password still logs in after up to four bad ones: the
/// account is not locked, so the verdict is `Accepted`; the success
/// clears the row, so the same holds for the next four bad passwords.
pub proof fn lemma_login_after_few_failures(
    password: Seq<char>,
    h: String,
    times: Seq<Timestamp>,
    lockout: Micros,
    now: Timestamp,
)
    requires
        phc_parses(h@),
        argon2_accepts(password, h@),
        times.len() <= 4,
        lockout > 0,
    ensures
        live_lock(after_failures(idle_throttle(), times, lockout), now) is None,
        login_verdict_of(
            true,
            live_lock(after_failures(idle_throttle(), times, lockout), now),
            password,
            Some(h),
        ) == LoginVerdict::Accepted,
{
    lemma_failure_sequence(times, lockout);
}

} // verus!
