//! Errors of the library's own logic.

use vstd::prelude::*;

verus! {

/// What can go wrong in Breezer's own logic (network, JSON and I/O failures
/// are the application's).
#[derive(Debug, PartialEq, Eq)]
pub enum Error {
    /// Deezer authentication problem (bad/expired ARL, etc.).
    Auth(String),
    /// Something is not implemented yet.
    Unimplemented(String),
    /// Generic, message-based error.
    Other(String),
}

/// The message of an error, as the application displays it.
pub open spec fn error_text(e: Error) -> Seq<char> {
    match e {
        Error::Auth(m) => "authentication error: "@ + m@,
        Error::Unimplemented(m) => "not implemented yet: "@ + m@,
        Error::Other(m) => m@,
    }
}

impl Error {
    /// The text the application shows for this error.
    pub fn message(&self) -> (s: String)
        ensures
            s@ == error_text(*self),
    {
        match self {
            Error::Auth(m) => crate::text::concat2("authentication error: ", m.as_str()),
            Error::Unimplemented(m) => crate::text::concat2("not implemented yet: ", m.as_str()),
            Error::Other(m) => m.clone(),
        }
    }
}

} // verus!
