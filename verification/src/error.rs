//! The errors this library reports.

use vstd::prelude::*;

verus! {

/// A recoverable error reported at the configuration boundary.
#[derive(Clone, Copy, PartialEq, Eq, Structural, Debug)]
pub enum Error {
    /// A previous initialization already registered the active sink.
    AlreadyInitialized,
    /// A piece of configuration text names no known severity level.
    UnrecognizedLevel,
}

impl Error {
    /// Returns a short description of the error.
    pub fn message(&self) -> (s: &'static str)
        ensures
            self is AlreadyInitialized ==> s@ == "attempted to initialize the logger twice"@,
            self is UnrecognizedLevel ==> s@ == "unrecognized severity level name"@,
    {
        match self {
            Error::AlreadyInitialized => "attempted to initialize the logger twice",
            Error::UnrecognizedLevel => "unrecognized severity level name",
        }
    }
}

} // verus!
