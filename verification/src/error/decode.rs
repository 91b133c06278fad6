use vstd::prelude::*;

verus! {

/// A payload that could not be turned back into a value.
#[derive(Debug, Clone, PartialEq, Eq)]
pub enum Error {
    Inner(String),
}

impl Error {
    /// The text shown for this error.
    pub open spec fn description(&self) -> Seq<char> {
        match self {
            Error::Inner(text) => text@,
        }
    }

    /// Writes the text shown for this error.
    pub fn describe(&self) -> (text: String)
        ensures
            text@ == self.description(),
    {
        match self {
            Error::Inner(text) => text.clone(),
        }
    }
}

} // verus!
