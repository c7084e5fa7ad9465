//! The ways a run can fail. Every one of them ends the run.

use vstd::prelude::*;
use vstd::string::*;

verus! {

/// Why a run was given up.
#[derive(Clone, Copy, Debug, PartialEq, Eq, Structural)]
pub enum Error {
    /// The search address could not be built from the term.
    InvalidUrl,
    /// The classifier's model could not be loaded.
    ModelLoad,
    /// The classifier's worker is gone.
    BridgeClosed,
    /// The search answered with a status other than success.
    Fetch,
    /// A tweet names an author that the page does not hold.
    MissingAuthor,
    /// The file saved by an earlier run cannot be read back.
    CorruptState,
}

impl Error {
    /// The text shown to the user for each failure.
    pub open spec fn text(self) -> Seq<char> {
        match self {
            Error::InvalidUrl => "The search address could not be built. Check your term."@,
            Error::ModelLoad => "The sentiment model could not be loaded."@,
            Error::BridgeClosed => "The sentiment classifier stopped before it answered."@,
            Error::Fetch => "🙅 No response when requesting tweets. Check your term."@,
            Error::MissingAuthor => "A tweet refers to an author missing from the response."@,
            Error::CorruptState => "The output file exists but does not hold saved tweets."@,
        }
    }

    pub fn message(&self) -> (s: String)
        ensures
            s@ == self.text(),
    {
        match self {
            Error::InvalidUrl => String::from_str(
                "The search address could not be built. Check your term.",
            ),
            Error::ModelLoad => String::from_str("The sentiment model could not be loaded."),
            Error::BridgeClosed => String::from_str(
                "The sentiment classifier stopped before it answered.",
            ),
            Error::Fetch => String::from_str(
                "🙅 No response when requesting tweets. Check your term.",
            ),
            Error::MissingAuthor => String::from_str(
                "A tweet refers to an author missing from the response.",
            ),
            Error::CorruptState => String::from_str(
                "The output file exists but does not hold saved tweets.",
            ),
        }
    }
}

} // verus!
