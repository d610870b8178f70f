//! Why a command invocation ends without a carousel.

use vstd::prelude::*;
use vstd::string::*;

verus! {

/// The failures that the library itself detects. Failures of the transport
/// are the caller's.
#[derive(Debug, Clone, Copy, PartialEq, Eq, Structural)]
pub enum FetchError {
    /// One of the selectors that locate a launch on the page is not accepted
    /// as CSS.
    Selectors,
    /// The page was read, and no launch was found on it.
    NoLaunches,
}

impl FetchError {
    /// The text shown to the person who invoked the command.
    pub open spec fn message_text(self) -> Seq<char> {
        match self {
            FetchError::Selectors => "The launch page could not be read."@,
            FetchError::NoLaunches => "No launches were found."@,
        }
    }

    /// The text shown to the person who invoked the command.
    pub fn message(&self) -> (text: String)
        ensures
            text@ == self.message_text(),
    {
        match self {
            FetchError::Selectors => String::from_str("The launch page could not be read."),
            FetchError::NoLaunches => String::from_str("No launches were found."),
        }
    }
}

} // verus!
