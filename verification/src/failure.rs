//! The kinds of failure a request can end in.

use vstd::prelude::*;

verus! {

/// Why an operation did not succeed.
#[derive(Debug, Clone, Copy, PartialEq, Eq, Structural)]
pub enum Failure {
    /// The input was malformed: an identifier that does not parse, or a
    /// required field that is absent.
    BadRequest,
    /// No note has the identifier asked for.
    NotFound,
    /// The store could not carry out a statement.
    StorageFailure,
    /// No connection could be had from the pool.
    PoolExhausted,
    /// The worker that ran the operation failed, or an event arrived that
    /// does not belong to the stage the request was in.
    DispatchFailure,
}

impl Failure {
    /// The HTTP status that stands for this kind of failure.
    pub open spec fn status_code(self) -> u16 {
        match self {
            Failure::BadRequest => 400,
            Failure::NotFound => 204,
            Failure::StorageFailure => 500,
            Failure::PoolExhausted => 503,
            Failure::DispatchFailure => 500,
        }
    }

    /// The HTTP status that stands for this kind of failure. An absent note
    /// is answered without content and is never a server error.
    #[verifier::when_used_as_spec(status_code)]
    pub fn status(self) -> (code: u16)
        ensures
            code == self.status_code(),
    {
        match self {
            Failure::BadRequest => 400,
            Failure::NotFound => 204,
            Failure::StorageFailure => 500,
            Failure::PoolExhausted => 503,
            Failure::DispatchFailure => 500,
        }
    }
}

} // verus!
