//! The library's error type and its HTTP status classification.
use vstd::prelude::*;
use vstd::string::*;

verus! {

/// Errors surfaced by the library. Failures of outside components
/// (database, file system, YAML and JSON codecs) carry their message.
#[derive(Debug)]
pub enum Error {
    Auth(String),
    SessionNotFound(String),
    /// The session exists but no longer accepts participants, invites or
    /// state changes (410 Gone).
    SessionClosed(String),
    TargetNotFound(String),
    PermissionDenied(String),
    InvalidInput(String),
    Conflict(String),
    RateLimited(String),
    ServiceUnavailable(String),
    Internal(String),
    Storage(String),
    Io(String),
    Yaml(String),
    Json(String),
}

pub type Result<T> = core::result::Result<T, Error>;

/// HTTP status of each error kind.
pub open spec fn status_of(e: Error) -> u16 {
    match e {
        Error::Auth(_) => 401,
        Error::PermissionDenied(_) => 403,
        Error::SessionNotFound(_) | Error::TargetNotFound(_) => 404,
        Error::SessionClosed(_) => 410,
        Error::InvalidInput(_) | Error::Json(_) => 400,
        Error::Conflict(_) => 409,
        Error::RateLimited(_) => 429,
        Error::ServiceUnavailable(_) => 503,
        Error::Internal(_) | Error::Storage(_) | Error::Io(_) | Error::Yaml(_) => 500,
    }
}

/// The prefix of the human-readable form of each error kind.
pub open spec fn prefix_of(e: Error) -> Seq<char> {
    match e {
        Error::Auth(_) => "authentication failed: "@,
        Error::SessionNotFound(_) => "session not found: "@,
        Error::SessionClosed(_) => "session closed: "@,
        Error::TargetNotFound(_) => "target not found: "@,
        Error::PermissionDenied(_) => "permission denied: "@,
        Error::InvalidInput(_) => "invalid input: "@,
        Error::Conflict(_) => "conflict: "@,
        Error::RateLimited(_) => "rate limited: "@,
        Error::ServiceUnavailable(_) => "service unavailable: "@,
        Error::Internal(_) => "internal error: "@,
        Error::Storage(_) => "storage error: "@,
        Error::Io(_) => "io error: "@,
        Error::Yaml(_) => "yaml error: "@,
        Error::Json(_) => "json error: "@,
    }
}

/// The message carried by an error.
pub open spec fn message_of(e: Error) -> Seq<char> {
    match e {
        Error::Auth(m) => m@,
        Error::SessionNotFound(m) => m@,
        Error::SessionClosed(m) => m@,
        Error::TargetNotFound(m) => m@,
        Error::PermissionDenied(m) => m@,
        Error::InvalidInput(m) => m@,
        Error::Conflict(m) => m@,
        Error::RateLimited(m) => m@,
        Error::ServiceUnavailable(m) => m@,
        Error::Internal(m) => m@,
        Error::Storage(m) => m@,
        Error::Io(m) => m@,
        Error::Yaml(m) => m@,
        Error::Json(m) => m@,
    }
}

impl Error {
    /// HTTP status classification. Client-side problems (bad input,
    /// expired invite) never surface as 500.
    pub fn http_status(&self) -> (s: u16)
        ensures
            s == status_of(*self),
    {
        match self {
            Error::Auth(_) => 401,
            Error::PermissionDenied(_) => 403,
            Error::SessionNotFound(_) | Error::TargetNotFound(_) => 404,
            Error::SessionClosed(_) => 410,
            Error::InvalidInput(_) | Error::Json(_) => 400,
            Error::Conflict(_) => 409,
            Error::RateLimited(_) => 429,
            Error::ServiceUnavailable(_) => 503,
            Error::Internal(_) | Error::Storage(_) | Error::Io(_) | Error::Yaml(_) => 500,
        }
    }

    /// Human-readable form: a prefix naming the kind, then the message.
    pub fn describe(&self) -> (s: String)
        ensures
            s@ == prefix_of(*self) + message_of(*self),
    {
        let (prefix, msg): (&str, &String) = match self {
            Error::Auth(m) => ("authentication failed: ", m),
            Error::SessionNotFound(m) => ("session not found: ", m),
            Error::SessionClosed(m) => ("session closed: ", m),
            Error::TargetNotFound(m) => ("target not found: ", m),
            Error::PermissionDenied(m) => ("permission denied: ", m),
            Error::InvalidInput(m) => ("invalid input: ", m),
            Error::Conflict(m) => ("conflict: ", m),
            Error::RateLimited(m) => ("rate limited: ", m),
            Error::ServiceUnavailable(m) => ("service unavailable: ", m),
            Error::Internal(m) => ("internal error: ", m),
            Error::Storage(m) => ("storage error: ", m),
            Error::Io(m) => ("io error: ", m),
            Error::Yaml(m) => ("yaml error: ", m),
            Error::Json(m) => ("json error: ", m),
        };
        let mut s = prefix.to_owned();
        s.append(msg.as_str());
        s
    }
}

} // verus!
