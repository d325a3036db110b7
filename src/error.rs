//! The ways a call through the bridge can fail.
use vstd::prelude::*;

verus! {

/// Why a call did not produce a result.
#[derive(Debug, Clone, PartialEq, Eq)]
pub enum Error {
    /// The backend could not be brought up: spawn failed, no port, handshake refused.
    StartupFailure(String),
    /// Nothing answered within the bound; carries what was being waited for.
    Timeout(String),
    /// The command reached the backend, which reported this failure.
    RemoteError(String),
    /// The transport failed while the call was in flight.
    ConnectionLost(String),
    /// The blocking context that ran a native call did not complete.
    TaskJoinFailure(String),
}

impl Error {
    /// The text carried by the error.
    pub fn message(&self) -> (r: &String)
        ensures
            r == match self {
                Error::StartupFailure(m) => m,
                Error::Timeout(m) => m,
                Error::RemoteError(m) => m,
                Error::ConnectionLost(m) => m,
                Error::TaskJoinFailure(m) => m,
            },
    {
        match self {
            Error::StartupFailure(m) => m,
            Error::Timeout(m) => m,
            Error::RemoteError(m) => m,
            Error::ConnectionLost(m) => m,
            Error::TaskJoinFailure(m) => m,
        }
    }

    pub fn is_timeout(&self) -> (r: bool)
        ensures
            r == (self is Timeout),
    {
        matches!(self, Error::Timeout(_))
    }
}

} // verus!
