//! Stable error codes carried by `ServerMessage::Error`. The web client
//! switches on these strings.
use vstd::prelude::*;

verus! {

pub const AUTH_FAILED: &'static str = "AUTH_FAILED";
pub const AUTH_TIMEOUT: &'static str = "AUTH_TIMEOUT";
pub const EXPECTED_JOIN: &'static str = "EXPECTED_JOIN";
pub const SESSION_NOT_FOUND: &'static str = "SESSION_NOT_FOUND";
pub const SESSION_CLOSED: &'static str = "SESSION_CLOSED";
pub const NOT_PARTICIPANT: &'static str = "NOT_PARTICIPANT";
pub const TARGET_NOT_FOUND: &'static str = "TARGET_NOT_FOUND";
pub const PTY_ERROR: &'static str = "PTY_ERROR";
/// Transient storage failure during the handshake: the client retries.
pub const STORAGE_ERROR: &'static str = "STORAGE_ERROR";
/// The account may not create or attach to sessions yet.
pub const SESSION_DISABLED: &'static str = "SESSION_DISABLED";

} // verus!
