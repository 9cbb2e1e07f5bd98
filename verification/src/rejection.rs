//! The ways in which a request is turned away.

use vstd::prelude::*;

verus! {

/// Why a request is turned away.
#[derive(Debug, Clone, Copy, PartialEq, Eq, Structural)]
pub enum Rejection {
    /// The caller did not present the expected bearer token.
    Unauthorized,
    /// The request's timestamp is malformed.
    BadRequest,
    /// The vessel is not registered, or not active.
    UnknownVessel,
    /// A store failed.  No detail is passed on to the caller.
    StorageFailure,
}

impl Rejection {
    /// The HTTP status that reports this rejection.
    pub open spec fn status_code(self) -> u16 {
        match self {
            Rejection::Unauthorized => 401,
            Rejection::BadRequest => 400,
            Rejection::UnknownVessel => 403,
            Rejection::StorageFailure => 500,
        }
    }

    /// The short message that reports this rejection.
    pub open spec fn message_text(self) -> Seq<char> {
        match self {
            Rejection::Unauthorized => "Unauthorized"@,
            Rejection::BadRequest => "Invalid timestampUTC"@,
            Rejection::UnknownVessel => "Unknown or inactive vessel"@,
            Rejection::StorageFailure => "Internal Server Error"@,
        }
    }

    /// The HTTP status that reports this rejection.
    pub fn status(&self) -> (code: u16)
        ensures
            code == self.status_code(),
    {
        match self {
            Rejection::Unauthorized => 401,
            Rejection::BadRequest => 400,
            Rejection::UnknownVessel => 403,
            Rejection::StorageFailure => 500,
        }
    }

    /// The short message that reports this rejection.
    pub fn message(&self) -> (text: &'static str)
        ensures
            text@ == self.message_text(),
    {
        match self {
            Rejection::Unauthorized => "Unauthorized",
            Rejection::BadRequest => "Invalid timestampUTC",
            Rejection::UnknownVessel => "Unknown or inactive vessel",
            Rejection::StorageFailure => "Internal Server Error",
        }
    }
}

/// The rejection that reports a failure of a store, whatever the failure was.
pub fn internal_err() -> (rejection: Rejection)
    ensures
        rejection == Rejection::StorageFailure,
{
    Rejection::StorageFailure
}

} // verus!
