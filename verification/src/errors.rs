//! Error kinds of the completion session.

use vstd::prelude::*;

verus! {

/// Everything that can go wrong in one completion exchange or one persistence
/// attempt. Errors are local to the call that raised them: none of them
/// invalidates the session or its context.
#[derive(Debug)]
pub enum ChatError {
    /// The request parameters could not be assembled; fatal to the single call.
    RequestBuildError(String),
    /// One chunk of the stream reported an error; the stream itself goes on.
    TransportError(String),
    /// The stream ended abnormally; fatal to the call, not to the session.
    StreamTerminationError(String),
    /// Writing the context file failed; the last-dump timestamp is not advanced.
    PersistenceError(String),
}

impl ChatError {
    /// A short human-readable description, usable where `Display` would be.
    pub fn describe(&self) -> (out: String)
        ensures
            match self {
                ChatError::RequestBuildError(m) => out@ == "request build error: "@ + m@,
                ChatError::TransportError(m) => out@ == "transport error: "@ + m@,
                ChatError::StreamTerminationError(m) => out@ == "stream termination error: "@
                    + m@,
                ChatError::PersistenceError(m) => out@ == "persistence error: "@ + m@,
            },
    {
        match self {
            ChatError::RequestBuildError(m) => {
                let mut out = String::from_str("request build error: ");
                out.append(m.as_str());
                out
            },
            ChatError::TransportError(m) => {
                let mut out = String::from_str("transport error: ");
                out.append(m.as_str());
                out
            },
            ChatError::StreamTerminationError(m) => {
                let mut out = String::from_str("stream termination error: ");
                out.append(m.as_str());
                out
            },
            ChatError::PersistenceError(m) => {
                let mut out = String::from_str("persistence error: ");
                out.append(m.as_str());
                out
            },
        }
    }
}

} // verus!
