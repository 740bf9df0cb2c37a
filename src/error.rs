//! The failures that the client operations report.
use vstd::prelude::*;

verus! {

/// Why a client operation failed.
#[derive(Clone, Copy, Debug, PartialEq, Eq, Structural)]
pub enum ClientError {
    /// Dialing, writing or reading the connection failed.
    Connection,
    /// A reply was malformed or of an unexpected kind.
    Protocol,
    /// The operation is not allowed in the session's current state.
    State,
    /// The message text is longer than the protocol allows.
    Validation,
}

impl ClientError {
    /// A short human-readable description.
    pub fn message(&self) -> (r: String) {
        match self {
            ClientError::Connection => "connection failed".to_owned(),
            ClientError::Protocol => "unexpected or malformed reply".to_owned(),
            ClientError::State => "no active connection in the required state".to_owned(),
            ClientError::Validation => "Message too long".to_owned(),
        }
    }
}

} // verus!
