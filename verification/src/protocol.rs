//! The WebSocket protocol between the web client and the server.
use vstd::prelude::*;

use crate::permission::Role;
use crate::session::{Session, UserId};
use crate::text::str_eq;

pub mod error_codes;
pub mod input_denied;

verus! {

/// Close code of a permanent refusal: the client does not reconnect.
pub const CLOSE_CODE_TERMINAL: u16 = 4001;

/// Close code of a transient failure: the client retries.
pub const CLOSE_CODE_TRANSIENT: u16 = 4503;

/// Maps an error code to the close code that accompanies it. Only a
/// storage error is transient; every other code (including unknown
/// ones) is terminal, so a new code never silently becomes "retry".
pub fn close_code_for(error_code: &str) -> (c: u16)
    ensures
        c == if error_code@ == "STORAGE_ERROR"@ {
            CLOSE_CODE_TRANSIENT
        } else {
            CLOSE_CODE_TERMINAL
        },
{
    if str_eq(error_code, "STORAGE_ERROR") {
        CLOSE_CODE_TRANSIENT
    } else {
        CLOSE_CODE_TERMINAL
    }
}

/// Client-to-server control messages (terminal input travels as binary
/// frames).
#[derive(Debug, Clone)]
pub enum ClientMessage {
    SessionJoin { session_id: String, token: String, cols: u16, rows: u16 },
    TermResize { cols: u16, rows: u16 },
    ChatMessage { text: String },
}

/// Terminal width assumed when a join does not give one.
pub fn default_cols() -> (c: u16)
    ensures
        c == 80,
{
    80
}

/// Terminal height assumed when a join does not give one.
pub fn default_rows() -> (r: u16)
    ensures
        r == 24,
{
    24
}

/// Why a participant is force-disconnected.
#[derive(Debug, Clone, Copy, PartialEq, Eq, Structural)]
pub enum EvictReason {
    /// An admin disabled the account.
    AccountDisabled,
    /// The user's password change rotated their bearer token.
    TokenRotated,
}

/// Whether a recording is running, sent to late joiners.
#[derive(Debug, Clone)]
pub struct RecordingStatusInfo {
    pub recording_id: String,
    pub started_at: String,
}

#[derive(Debug, Clone)]
pub struct ParticipantInfo {
    pub user_id: UserId,
    pub name: String,
    pub role: Role,
    pub color: String,
}

/// One chat line; the same fields as `ServerMessage::PeerChat`.
#[derive(Debug, Clone)]
pub struct ChatEntry {
    pub user_id: UserId,
    pub name: String,
    pub text: String,
    /// RFC 3339 time of the broadcast.
    pub ts: String,
}

/// Server-to-client messages.
#[derive(Debug, Clone)]
pub enum ServerMessage {
    SessionState {
        session: Session,
        participants: Vec<ParticipantInfo>,
        your_role: Role,
        your_user_id: UserId,
        chat_history: Vec<ChatEntry>,
        recording: Option<RecordingStatusInfo>,
    },
    PeerJoined { user_id: UserId, name: String, role: Role, color: String },
    PeerLeft { user_id: UserId },
    PeerEvicted { user_id: UserId, reason: EvictReason },
    PeerRoleChanged { user_id: UserId, new_role: Role },
    PeerChat { user_id: UserId, name: String, text: String, ts: String },
    InputDenied { reason: String },
    Error { code: String, message: String },
    RecordingStarted { recording_id: String },
    RecordingStopped { recording_id: String },
}

impl From<ChatEntry> for ServerMessage {
    fn from(e: ChatEntry) -> (m: ServerMessage) {
        ServerMessage::PeerChat { user_id: e.user_id, name: e.name, text: e.text, ts: e.ts }
    }
}

impl vstd::std_specs::convert::FromSpecImpl<ChatEntry> for ServerMessage {
    open spec fn obeys_from_spec() -> bool {
        true
    }

    open spec fn from_spec(e: ChatEntry) -> ServerMessage {
        ServerMessage::PeerChat { user_id: e.user_id, name: e.name, text: e.text, ts: e.ts }
    }
}

} // verus!
