use vstd::prelude::*;

use crate::constant::{MAXIMUM_MESSAGE_LENGTH, MINIMUM_MESSAGE_LENGTH};
use crate::text::{bound_report, write_bound_report};

verus! {

/// Why a message body was refused.
#[derive(Debug, Clone, PartialEq, Eq)]
pub enum Error {
    /// Longer than allowed; carries the length given, in bytes.
    MaximumLength(usize),
    /// Shorter than allowed; carries the length given, in bytes.
    MinimumLength(usize),
}

impl Error {
    /// The text shown for this error.
    pub open spec fn description(&self) -> Seq<char> {
        match self {
            Error::MaximumLength(length) => bound_report(
                "More than maximum length("@,
                MAXIMUM_MESSAGE_LENGTH,
                *length,
            ),
            Error::MinimumLength(length) => bound_report(
                "Less than minimum length("@,
                MINIMUM_MESSAGE_LENGTH,
                *length,
            ),
        }
    }

    /// Writes the text shown for this error.
    pub fn describe(&self) -> (text: String)
        ensures
            text@ == self.description(),
    {
        match self {
            Error::MaximumLength(length) => write_bound_report(
                "More than maximum length(",
                MAXIMUM_MESSAGE_LENGTH,
                *length,
            ),
            Error::MinimumLength(length) => write_bound_report(
                "Less than minimum length(",
                MINIMUM_MESSAGE_LENGTH,
                *length,
            ),
        }
    }
}

} // verus!
