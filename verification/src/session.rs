//! Sessions, participants, users and invites: the rows the storage layer
//! persists and the outcomes of its atomic operations.
use vstd::prelude::*;
use vstd::string::*;
use vstd::utf8::is_ascii_chars;

use crate::permission::Role;
use crate::text::str_eq;

verus! {

/// Identity of a user: the 128-bit value of its UUID.
#[derive(Debug, Clone, Copy, PartialEq, Eq, Hash, Structural)]
pub struct UserId(pub u128);

/// A point in time, in microseconds since the Unix epoch (UTC).
pub type Timestamp = i64;

/// A length of time, in microseconds.
pub type Micros = i64;

pub const MICROS_PER_SECOND: i64 = 1_000_000;

/// Builds `prefix + s` as the error message of a failed parse.
fn unknown_message(prefix: &str, s: &str) -> (m: String)
    ensures
        m@ == prefix@ + s@,
{
    let mut m = prefix.to_owned();
    m.append(s);
    m
}

#[derive(Debug, Clone, Copy, PartialEq, Eq, Structural)]
pub enum InputMode {
    Serialized,
    Multiplexed,
}

pub open spec fn input_mode_name(m: InputMode) -> Seq<char> {
    match m {
        InputMode::Serialized => "serialized"@,
        InputMode::Multiplexed => "multiplexed"@,
    }
}

impl InputMode {
    pub fn as_str(&self) -> (s: &'static str)
        ensures
            s@ == input_mode_name(*self),
    {
        match self {
            InputMode::Serialized => "serialized",
            InputMode::Multiplexed => "multiplexed",
        }
    }

    /// Parses the stored name; anything else is reported as unknown.
    pub fn parse(s: &str) -> (r: core::result::Result<InputMode, String>)
        ensures
            r matches Ok(m) ==> input_mode_name(m) == s@,
            r matches Err(msg) ==> msg@ == "unknown input mode: "@ + s@ && (forall|m: InputMode|
                input_mode_name(m) != s@),
    {
        if str_eq(s, "serialized") {
            Ok(InputMode::Serialized)
        } else if str_eq(s, "multiplexed") {
            Ok(InputMode::Multiplexed)
        } else {
            proof {
                assert forall|m: InputMode| input_mode_name(m) != s@ by {
                    match m {
                        InputMode::Serialized => {},
                        InputMode::Multiplexed => {},
                    }
                }
            }
            Err(unknown_message("unknown input mode: ", s))
        }
    }
}

#[derive(Debug, Clone, Copy, PartialEq, Eq, Structural)]
pub enum SessionStatus {
    Active,
    Closed,
}

pub open spec fn session_status_name(st: SessionStatus) -> Seq<char> {
    match st {
        SessionStatus::Active => "active"@,
        SessionStatus::Closed => "closed"@,
    }
}

impl SessionStatus {
    pub fn as_str(&self) -> (s: &'static str)
        ensures
            s@ == session_status_name(*self),
    {
        match self {
            SessionStatus::Active => "active",
            SessionStatus::Closed => "closed",
        }
    }

    pub fn parse(s: &str) -> (r: core::result::Result<SessionStatus, String>)
        ensures
            r matches Ok(st) ==> session_status_name(st) == s@,
            r matches Err(msg) ==> msg@ == "unknown session status: "@ + s@ && (forall|
                st: SessionStatus,
            | session_status_name(st) != s@),
    {
        if str_eq(s, "active") {
            Ok(SessionStatus::Active)
        } else if str_eq(s, "closed") {
            Ok(SessionStatus::Closed)
        } else {
            proof {
                assert forall|st: SessionStatus| session_status_name(st) != s@ by {
                    match st {
                        SessionStatus::Active => {},
                        SessionStatus::Closed => {},
                    }
                }
            }
            Err(unknown_message("unknown session status: ", s))
        }
    }
}

/// Why a session went from `active` to `closed`.
#[derive(Debug, Clone, Copy, PartialEq, Eq, Structural)]
pub enum CloseReason {
    /// The owner closed it.
    Owner,
    /// The idle reaper reclaimed it.
    Reaper,
    /// Boot-time cleanup closed an orphaned active row.
    Startup,
    /// A server-side error tore it down.
    Error,
}

pub open spec fn close_reason_name(r: CloseReason) -> Seq<char> {
    match r {
        CloseReason::Owner => "owner"@,
        CloseReason::Reaper => "reaper"@,
        CloseReason::Startup => "startup"@,
        CloseReason::Error => "error"@,
    }
}

impl CloseReason {
    pub fn as_str(&self) -> (s: &'static str)
        ensures
            s@ == close_reason_name(*self),
    {
        match self {
            CloseReason::Owner => "owner",
            CloseReason::Reaper => "reaper",
            CloseReason::Startup => "startup",
            CloseReason::Error => "error",
        }
    }

    pub fn parse(s: &str) -> (r: core::result::Result<CloseReason, String>)
        ensures
            r matches Ok(c) ==> close_reason_name(c) == s@,
            r matches Err(msg) ==> msg@ == "unknown close reason: "@ + s@ && (forall|
                c: CloseReason,
            | close_reason_name(c) != s@),
    {
        if str_eq(s, "owner") {
            Ok(CloseReason::Owner)
        } else if str_eq(s, "reaper") {
            Ok(CloseReason::Reaper)
        } else if str_eq(s, "startup") {
            Ok(CloseReason::Startup)
        } else if str_eq(s, "error") {
            Ok(CloseReason::Error)
        } else {
            proof {
                assert forall|c: CloseReason| close_reason_name(c) != s@ by {
                    match c {
                        CloseReason::Owner => {},
                        CloseReason::Reaper => {},
                        CloseReason::Startup => {},
                        CloseReason::Error => {},
                    }
                }
            }
            Err(unknown_message("unknown close reason: ", s))
        }
    }
}

#[derive(Debug, Clone)]
pub struct Session {
    pub id: String,
    pub owner_id: UserId,
    pub target_name: String,
    pub input_mode: InputMode,
    pub status: SessionStatus,
    pub created_at: Timestamp,
    pub closed_at: Option<Timestamp>,
    /// Why the session was closed; `None` for active rows and legacy rows.
    pub closed_reason: Option<CloseReason>,
    /// Id of the user-owned target backing this session, if any.
    pub user_target_id: Option<String>,
}

/// Filter for listing sessions. The default lists every visible session.
#[derive(Debug, Clone)]
pub struct SessionListFilter {
    /// `None` = both statuses.
    pub status: Option<SessionStatus>,
    /// Only sessions on this target.
    pub target_name: Option<String>,
    /// `None` = no limit.
    pub limit: Option<i64>,
    /// `0` = no offset.
    pub offset: i64,
}

impl Default for SessionListFilter {
    fn default() -> (f: Self)
        ensures
            f.status is None,
            f.target_name is None,
            f.limit is None,
            f.offset == 0,
    {
        SessionListFilter { status: None, target_name: None, limit: None, offset: 0 }
    }
}

impl SessionListFilter {
    /// Active sessions only, all targets, no pagination.
    pub fn active_only() -> (f: Self)
        ensures
            f.status == Some(SessionStatus::Active),
            f.target_name is None,
            f.limit is None,
            f.offset == 0,
    {
        SessionListFilter { status: Some(SessionStatus::Active), target_name: None, limit: None, offset: 0 }
    }
}

#[derive(Debug, Clone)]
pub struct Participant {
    pub session_id: String,
    pub user_id: UserId,
    pub role: Role,
    pub joined_at: Timestamp,
    pub left_at: Option<Timestamp>,
}

/// Admin-approval state of an account.
#[derive(Debug, Clone, Copy, PartialEq, Eq, Structural)]
pub enum ApprovalState {
    /// Admin-created accounts, invite guests, legacy rows and approved signups.
    Approved,
    /// Email signups that passed OTP verification and await an admin.
    Pending,
}

pub open spec fn approval_state_name(a: ApprovalState) -> Seq<char> {
    match a {
        ApprovalState::Approved => "approved"@,
        ApprovalState::Pending => "pending"@,
    }
}

impl ApprovalState {
    pub fn as_str(&self) -> (s: &'static str)
        ensures
            s@ == approval_state_name(*self),
    {
        match self {
            ApprovalState::Approved => "approved",
            ApprovalState::Pending => "pending",
        }
    }

    pub fn parse(s: &str) -> (r: Option<ApprovalState>)
        ensures
            r matches Some(a) ==> approval_state_name(a) == s@,
            r is None ==> (forall|a: ApprovalState| approval_state_name(a) != s@),
    {
        if str_eq(s, "approved") {
            Some(ApprovalState::Approved)
        } else if str_eq(s, "pending") {
            Some(ApprovalState::Pending)
        } else {
            proof {
                assert forall|a: ApprovalState| approval_state_name(a) != s@ by {
                    match a {
                        ApprovalState::Approved => {},
                        ApprovalState::Pending => {},
                    }
                }
            }
            None
        }
    }
}

/// Approval state assumed for rows that do not carry one.
pub fn default_approval_state() -> (a: ApprovalState)
    ensures
        a == ApprovalState::Approved,
{
    ApprovalState::Approved
}

/// `session_enabled` assumed for rows that do not carry one.
pub fn default_session_enabled() -> (b: bool)
    ensures
        b,
{
    true
}

#[derive(Debug, Clone)]
pub struct User {
    pub id: UserId,
    pub name: String,
    pub is_admin: bool,
    /// `Some(session_id)`: an invite-minted guest scoped to one session.
    pub scoped_session_id: Option<String>,
    /// Set for email-registered users.
    pub email: Option<String>,
    /// Whether the account may create or attach to sessions.
    pub session_enabled: bool,
    pub approval_state: ApprovalState,
    pub created_at: Timestamp,
    pub updated_at: Timestamp,
}

impl User {
    /// `true` iff the credentials are scoped to a single session.
    pub fn is_guest(&self) -> (b: bool)
        ensures
            b == self.scoped_session_id is Some,
    {
        self.scoped_session_id.is_some()
    }
}

#[derive(Debug, Clone)]
pub struct InviteToken {
    /// Hex SHA-256 digest of the raw token; the primary key.
    pub token_sha256: String,
    pub session_id: String,
    pub role: Role,
    pub max_uses: i32,
    pub used_count: i32,
    pub expires_at: Option<Timestamp>,
    /// `None` for rows older than the column.
    pub created_at: Option<Timestamp>,
}

/// The short label of a digest: its first four characters (or all of it
/// when shorter).
pub open spec fn prefix_label(s: Seq<char>) -> Seq<char> {
    if s.len() <= 4 {
        s
    } else {
        s.take(4)
    }
}

impl InviteToken {
    /// First four hex characters of `token_sha256`: the label of an
    /// invite in audit rows. Four characters (16 bits) keep rows of one
    /// session apart for a reader while giving little to correlate
    /// invites across a leaked audit log. The digest is hex, so each
    /// character is one byte.
    pub fn token_prefix(&self) -> (p: String)
        requires
            is_ascii_chars(self.token_sha256@),
        ensures
            p@ == prefix_label(self.token_sha256@),
    {
        let s = self.token_sha256.as_str();
        let n = s.unicode_len();
        let k = if n < 4 { n } else { 4 };
        let r = s.substring_ascii(0, k);
        proof {
            if n <= 4 {
                assert(self.token_sha256@.subrange(0, k as int) =~= self.token_sha256@);
            }
        }
        r.to_owned()
    }
}

/// Who redeems an invite.
#[derive(Debug, Clone)]
pub enum RedeemIdentity {
    /// An authenticated user.
    Existing(UserId),
    /// An anonymous caller; a guest scoped to the invite's session is
    /// created under this name.
    NewGuest { name: String },
}

/// A virtual target owned by one user.
#[derive(Debug, Clone)]
pub struct UserTarget {
    pub id: String,
    pub user_id: UserId,
    pub name: String,
    pub display: String,
    pub command: String,
    pub args: Vec<String>,
    /// Environment variables, as (name, value) pairs; a map, so no name
    /// occurs twice (`distinct_names`).
    pub env: Vec<(String, String)>,
    pub tags: Vec<String>,
    pub created_at: Timestamp,
    pub updated_at: Timestamp,
}

/// Parameters for creating a user-owned target.
#[derive(Debug, Clone)]
pub struct CreateUserTargetParams {
    pub user_id: UserId,
    pub name: String,
    pub display: String,
    pub command: String,
    pub args: Vec<String>,
    /// A map of variables: no name occurs twice (`distinct_names`).
    pub env: Vec<(String, String)>,
    pub tags: Vec<String>,
}

/// Outcome of verifying a pending registration's one-time code.
#[derive(Debug)]
pub enum PendingVerifyResult {
    /// The code matched; the pending row was consumed and a user minted.
    Success { user: User, raw_token: String },
    /// Wrong code; `remaining` more wrong codes lock the row.
    Failure { remaining: u32 },
    /// Five wrong codes: the row is locked.
    Locked,
    /// No eligible pending row, or the code has expired.
    Expired,
}

/// Outcome of recording a failed password login.
#[derive(Debug, Clone, Copy, PartialEq, Eq, Structural)]
pub enum LoginFailureOutcome {
    /// Counted; `remaining` more failures lock the account.
    Recorded { remaining: u32 },
    /// The account is locked until `until`.
    Locked { until: Timestamp },
}

/// Outcome of redeeming an invite.
#[derive(Debug, Clone)]
pub struct RedeemOutcome {
    /// The invite row after the redemption (unchanged on the
    /// already-a-member path).
    pub invite: InviteToken,
    pub user_id: UserId,
    pub user_name: String,
    /// The raw bearer of a freshly minted guest, if one was minted.
    pub issued_token: Option<String>,
    /// The caller was already an active participant; nothing was consumed.
    pub was_already_member: bool,
}

} // verus!

verus! {

/// Distinct values have distinct stored names, so every stored name of
/// an input mode, session status, close reason or approval state reads
/// back (through its `parse`) as the value that wrote it.
pub proof fn lemma_stored_names_injective(
    m1: InputMode,
    m2: InputMode,
    s1: SessionStatus,
    s2: SessionStatus,
    c1: CloseReason,
    c2: CloseReason,
    a1: ApprovalState,
    a2: ApprovalState,
)
    ensures
        input_mode_name(m1) == input_mode_name(m2) ==> m1 == m2,
        session_status_name(s1) == session_status_name(s2) ==> s1 == s2,
        close_reason_name(c1) == close_reason_name(c2) ==> c1 == c2,
        approval_state_name(a1) == approval_state_name(a2) ==> a1 == a2,
{
    reveal_strlit("serialized");
    reveal_strlit("multiplexed");
    reveal_strlit("active");
    reveal_strlit("closed");
    reveal_strlit("owner");
    reveal_strlit("reaper");
    reveal_strlit("startup");
    reveal_strlit("error");
    reveal_strlit("approved");
    reveal_strlit("pending");
    if input_mode_name(m1) == input_mode_name(m2) {
        assert(input_mode_name(m1).len() == input_mode_name(m2).len());
    }
    if session_status_name(s1) == session_status_name(s2) {
        assert(session_status_name(s1)[0] == session_status_name(s2)[0]);
    }
    if close_reason_name(c1) == close_reason_name(c2) {
        assert(close_reason_name(c1)[0] == close_reason_name(c2)[0]);
    }
    if approval_state_name(a1) == approval_state_name(a2) {
        assert(approval_state_name(a1)[0] == approval_state_name(a2)[0]);
    }
}

} // verus!
