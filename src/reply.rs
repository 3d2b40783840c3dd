use vstd::prelude::*;

verus! {

/// The page served on the health route.
pub const HEALTH_PAGE: &'static str = "<h1>OK</h1>";

/// The page served on the root route.
pub const INDEX_PAGE: &'static str = "<h1>Hello, World!</h1>";

/// The outcome of a write that the store accepted.
#[derive(Clone, Copy, Debug, PartialEq, Eq, Structural)]
pub enum Outcome {
    Created,
    Deleted,
    Updated,
}

impl Outcome {
    pub open spec fn spec_status(self) -> u16 {
        match self {
            Outcome::Created => 201,
            Outcome::Deleted => 200,
            Outcome::Updated => 200,
        }
    }

    pub open spec fn spec_body(self) -> Seq<char> {
        match self {
            Outcome::Created => "Message added successfully"@,
            Outcome::Deleted => "Message deleted successfully"@,
            Outcome::Updated => "Message updated successfully"@,
        }
    }

    /// The HTTP status code of the reply.
    pub fn status(&self) -> (r: u16)
        ensures
            r == self.spec_status(),
    {
        match self {
            Outcome::Created => 201,
            Outcome::Deleted => 200,
            Outcome::Updated => 200,
        }
    }

    /// The plain-text body of the reply.
    pub fn body(&self) -> (r: &'static str)
        ensures
            r@ == self.spec_body(),
    {
        match self {
            Outcome::Created => "Message added successfully",
            Outcome::Deleted => "Message deleted successfully",
            Outcome::Updated => "Message updated successfully",
        }
    }
}

} // verus!
