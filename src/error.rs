use vstd::prelude::*;

verus! {

/// Failures as the HTTP layer reports them.
#[derive(Clone, Copy, Debug, PartialEq, Eq, Structural)]
pub enum ServiceError {
    /// The store could not be reached.
    Unavailable,
    /// The request body could not be read.
    BadRequest,
    /// Anything else, such as a stored row that lacks a column.
    Internal,
}

impl ServiceError {
    pub open spec fn spec_status(self) -> u16 {
        match self {
            ServiceError::Unavailable => 503,
            ServiceError::BadRequest => 400,
            ServiceError::Internal => 500,
        }
    }

    /// The HTTP status code of this failure.
    pub fn status(&self) -> (r: u16)
        ensures
            r == self.spec_status(),
    {
        match self {
            ServiceError::Unavailable => 503,
            ServiceError::BadRequest => 400,
            ServiceError::Internal => 500,
        }
    }

    pub open spec fn spec_message(self) -> Seq<char> {
        match self {
            ServiceError::Unavailable => "service unavailable"@,
            ServiceError::BadRequest => "malformed request"@,
            ServiceError::Internal => "internal error"@,
        }
    }

    /// The opaque message shown to the client.
    pub fn message(&self) -> (r: &'static str)
        ensures
            r@ == self.spec_message(),
    {
        match self {
            ServiceError::Unavailable => "service unavailable",
            ServiceError::BadRequest => "malformed request",
            ServiceError::Internal => "internal error",
        }
    }
}

} // verus!
