//! Errors reported to callers of the library.
use vstd::prelude::*;

verus! {

/// Why an operation failed.
#[derive(Clone, Copy, PartialEq, Eq, Structural, Debug)]
pub enum Error {
    /// The windowing system refused to create a native object; carries its status code.
    Api(i32),
    /// The other side of a channel, a handshake or a reply no longer exists.
    Closed,
}

impl Error {
    /// A one-line description of the error.
    pub fn message(&self) -> (r: String)
        ensures
            *self is Closed ==> r@ == "closed"@,
            *self is Api ==> r@ == "Error::Api"@,
    {
        match self {
            Error::Api(_) => String::from_str("Error::Api"),
            Error::Closed => String::from_str("closed"),
        }
    }
}

} // verus!
