//! Reason codes of `ServerMessage::InputDenied`.
use vstd::prelude::*;

verus! {

/// The connection's role is `Viewer`.
pub const VIEWER: &'static str = "VIEWER";
/// The session is serialized and the caller is not the owner.
pub const SERIALIZED_NOT_OWNER: &'static str = "SERIALIZED_NOT_OWNER";

} // verus!
