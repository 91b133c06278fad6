use vstd::prelude::*;

use crate::constant::{MAXIMUM_COMMUNITY_NAME_LENGTH, MINIMUM_COMMUNITY_NAME_LENGTH};
use crate::text::{bound_report, write_bound_report};

verus! {

/// Why a community name was refused.
#[derive(Debug, Clone, PartialEq, Eq)]
pub enum Error {
    /// Longer than allowed; carries the length given, in bytes.
    MaximumLength(usize),
    /// Shorter than allowed; carries the length given, in bytes.
    MinimumLength(usize),
    /// Holds a character outside ASCII.
    ASCII,
}

impl Error {
    /// The text shown for this error.
    pub open spec fn description(&self) -> Seq<char> {
        match self {
            Error::MaximumLength(length) => bound_report(
                "More than maximum length("@,
                MAXIMUM_COMMUNITY_NAME_LENGTH,
                *length,
            ),
            Error::MinimumLength(length) => bound_report(
                "Less than minimum length("@,
                MINIMUM_COMMUNITY_NAME_LENGTH,
                *length,
            ),
            Error::ASCII => "Given input is not ASCII compatible"@,
        }
    }

    /// Writes the text shown for this error.
    pub fn describe(&self) -> (text: String)
        ensures
            text@ == self.description(),
    {
        match self {
            Error::MaximumLength(length) => write_bound_report(
                "More than maximum length(",
                MAXIMUM_COMMUNITY_NAME_LENGTH,
                *length,
            ),
            Error::MinimumLength(length) => write_bound_report(
                "Less than minimum length(",
                MINIMUM_COMMUNITY_NAME_LENGTH,
                *length,
            ),
            Error::ASCII => "Given input is not ASCII compatible".to_owned(),
        }
    }
}

} // verus!
