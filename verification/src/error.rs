//! The one error type every operation reports through.

use vstd::prelude::*;

verus! {

/// One error per failed call; nothing is retried or swallowed.
#[derive(Debug)]
pub enum ClientError {
    /// Connectivity or transport failure, delegated from the client.
    Transport { message: String },
    /// A response status that neither succeeds nor stands for "absent".
    Status { status: u16, body: String },
    /// A successful status whose body does not match the expected shape.
    Decode { message: String },
    /// A required identity field was still unset when a builder was built.
    Build { field: String },
}

impl ClientError {
    /// Whether this error reports a malformed or mis-shaped body.
    pub open spec fn is_decode(&self) -> bool {
        self is Decode
    }

    /// Whether this error carries the given response status.
    pub open spec fn is_status(&self, status: u16) -> bool {
        match self {
            ClientError::Status { status: s, .. } => *s == status,
            _ => false,
        }
    }
}

} // verus!
