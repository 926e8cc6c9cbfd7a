//! The one way in which the filter can fail.

use vstd::prelude::*;

verus! {

/// What [`Error::MissingPhaseResult`] says of itself.
pub const MISSING_PHASE_RESULT_MESSAGE: &'static str = "block has no begin-block result";

/// Why a block could not be filtered.
#[derive(Debug, Clone, Copy, PartialEq, Eq)]
pub enum Error {
    /// The block recorded no begin-block phase at all. This is not the same
    /// as a begin-block phase that emitted no events, which filters to an
    /// empty result.
    MissingPhaseResult,
}

impl Error {
    /// The text that describes each error.
    pub open spec fn spec_message(self) -> Seq<char> {
        match self {
            Error::MissingPhaseResult => MISSING_PHASE_RESULT_MESSAGE@,
        }
    }

    /// A description of the error for whoever receives it.
    pub fn message(&self) -> (text: String)
        ensures
            text@ == self.spec_message(),
    {
        match self {
            Error::MissingPhaseResult => MISSING_PHASE_RESULT_MESSAGE.to_owned(),
        }
    }
}

} // verus!
