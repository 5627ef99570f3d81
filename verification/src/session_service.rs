//! Session-layer policy: ownership checks and the audit rows of the
//! session lifecycle.
use vstd::prelude::*;
use vstd::string::*;

use crate::auth::{user_id_text, uuid_text};
use crate::error::Error;
use crate::session::{Session, SessionStatus, User};
use crate::text::owned;

verus! {

/// The message of a failed ownership check.
pub open spec fn not_owner_message(user: User, session_id: Seq<char>) -> Seq<char> {
    "user "@ + uuid_text(user.id.0) + " does not own session "@ + session_id
}

/// Checks that `session` (the row stored under `session_id`) exists and
/// is owned by `user`: a missing row is `SessionNotFound` (404), another
/// owner is `PermissionDenied` (403).
pub fn require_owner(user: &User, session_id: &str, session: Option<Session>) -> (r: Result<Session, Error>)
    ensures
        match session {
            None => r matches Err(e) && (e matches Error::SessionNotFound(id) && id@ == session_id@),
            Some(s) => if s.owner_id == user.id {
                r matches Ok(x) && x == s
            } else {
                r matches Err(e) && (e matches Error::PermissionDenied(m) && m@ == not_owner_message(*user, session_id@))
            },
        },
{
    match session {
        None => Err(Error::SessionNotFound(owned(session_id))),
        Some(s) => {
            if s.owner_id != user.id {
                let mut m = owned("user ");
                m.append(user_id_text(user.id).as_str());
                m.append(" does not own session ");
                m.append(session_id);
                Err(Error::PermissionDenied(m))
            } else {
                Ok(s)
            }
        },
    }
}

/// Like `require_owner`, and the session must still be active
/// (`SessionClosed`, 410, otherwise).
pub fn require_active_owned(user: &User, session_id: &str, session: Option<Session>) -> (r: Result<Session, Error>)
    ensures
        match session {
            None => r matches Err(e) && (e matches Error::SessionNotFound(id) && id@ == session_id@),
            Some(s) => if s.owner_id != user.id {
                r matches Err(e) && (e matches Error::PermissionDenied(m) && m@ == not_owner_message(*user, session_id@))
            } else if s.status != SessionStatus::Active {
                r matches Err(e) && (e matches Error::SessionClosed(id) && id@ == session_id@)
            } else {
                r matches Ok(x) && x == s
            },
        },
{
    let s = require_owner(user, session_id, session)?;
    if s.status != SessionStatus::Active {
        return Err(Error::SessionClosed(owned(session_id)));
    }
    Ok(s)
}

/// Fetches a session or fails with `SessionNotFound`.
pub fn get_session_required(session_id: &str, session: Option<Session>) -> (r: Result<Session, Error>)
    ensures
        match session {
            None => r matches Err(e) && (e matches Error::SessionNotFound(id) && id@ == session_id@),
            Some(s) => r matches Ok(x) && x == s,
        },
{
    match session {
        None => Err(Error::SessionNotFound(owned(session_id))),
        Some(s) => Ok(s),
    }
}

/// What an owner's request to close a session comes to.
#[derive(Debug, Clone, Copy, PartialEq, Eq, Structural)]
pub enum OwnerClose {
    /// The session is active: close it, as the owner.
    Close,
    /// The session is already closed: nothing to do, and the request
    /// succeeds, so a repeated close is not an error.
    AlreadyClosed,
}

/// The decision of an owner-initiated close: the ownership check of
/// `require_owner`, then a closed session is left as it is.
pub fn owner_close_step(user: &User, session_id: &str, session: Option<Session>) -> (r: Result<OwnerClose, Error>)
    ensures
        match session {
            None => r matches Err(e) && (e matches Error::SessionNotFound(id) && id@ == session_id@),
            Some(s) => if s.owner_id == user.id {
                r == Ok::<OwnerClose, Error>(
                    if s.status == SessionStatus::Closed {
                        OwnerClose::AlreadyClosed
                    } else {
                        OwnerClose::Close
                    },
                )
            } else {
                r matches Err(e) && (e matches Error::PermissionDenied(m) && m@ == not_owner_message(*user, session_id@))
            },
        },
{
    let s = require_owner(user, session_id, session)?;
    if s.status == SessionStatus::Closed {
        Ok(OwnerClose::AlreadyClosed)
    } else {
        Ok(OwnerClose::Close)
    }
}

/// Which sessions a user sees: an admin sees every session, anyone else
/// only the sessions they own or joined.
#[derive(Debug, Clone, Copy, PartialEq, Eq, Structural)]
pub enum SessionScope {
    All,
    OwnedOrJoined,
}

pub fn visibility_scope(user: &User) -> (s: SessionScope)
    ensures
        s == if user.is_admin {
            SessionScope::All
        } else {
            SessionScope::OwnedOrJoined
        },
{
    if user.is_admin {
        SessionScope::All
    } else {
        SessionScope::OwnedOrJoined
    }
}

} // verus!
