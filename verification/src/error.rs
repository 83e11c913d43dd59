//! The kinds of failure and the HTTP status that reports each.

use vstd::prelude::*;

verus! {

/// Why an operation failed.
#[derive(Debug, Clone, Copy, PartialEq, Eq, Structural)]
pub enum ErrorKind {
    /// The entity is absent or was deleted.
    NotFound,
    /// A body is malformed or a field is out of bounds.
    Validation,
    /// The one-time password does not match.
    Unauthorized,
    /// The state machine does not allow the step, or a room is full.
    Conflict,
    /// The entity has expired.
    Gone,
    /// A rendezvous took longer than its bound.
    Timeout,
    /// An invariant was violated or a channel was dropped.
    Internal,
}

/// The HTTP status that reports a kind of failure.
pub open spec fn status_of(kind: ErrorKind) -> u16 {
    match kind {
        ErrorKind::NotFound => 404,
        ErrorKind::Validation => 400,
        ErrorKind::Unauthorized => 401,
        ErrorKind::Conflict => 409,
        ErrorKind::Gone => 410,
        ErrorKind::Timeout => 504,
        ErrorKind::Internal => 500,
    }
}

impl ErrorKind {
    /// The HTTP status that reports this kind of failure.
    pub fn status_code(self) -> (code: u16)
        ensures
            code == status_of(self),
    {
        match self {
            ErrorKind::NotFound => 404,
            ErrorKind::Validation => 400,
            ErrorKind::Unauthorized => 401,
            ErrorKind::Conflict => 409,
            ErrorKind::Gone => 410,
            ErrorKind::Timeout => 504,
            ErrorKind::Internal => 500,
        }
    }
}

/// Distinct kinds of failure are reported by distinct statuses, and none of
/// them is a success status.
pub proof fn lemma_status_of_injective(a: ErrorKind, b: ErrorKind)
    ensures
        status_of(a) == status_of(b) ==> a == b,
        400 <= status_of(a) < 600,
{
}

} // verus!
