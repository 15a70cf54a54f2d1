use vstd::prelude::*;

verus! {

/// The two ways a piece of [`Content`](crate::Content) can be rejected:
/// it is empty, or it holds a line-break character (`'\n'` or `'\r'`).
#[derive(Debug, Clone, Copy, PartialEq, Eq, Structural)]
pub enum Error {
    EmptyContent,
    InvalidContent,
}

impl Error {
    /// A human-readable description of the failure kind.
    pub fn message(&self) -> (m: &'static str)
        ensures
            *self is EmptyContent ==> m@ == "invalid Content: is empty"@,
            *self is InvalidContent ==> m@ == "invalid Content: contains newline characters"@,
    {
        match self {
            Error::EmptyContent => "invalid Content: is empty",
            Error::InvalidContent => "invalid Content: contains newline characters",
        }
    }
}

} // verus!
