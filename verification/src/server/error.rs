//! Server-side errors, and what the client is told of them.

use vstd::prelude::*;

pub mod database;

use crate::error::Error as CommonError;

verus! {

/// A failure while serving a request.
#[derive(Debug, Clone, PartialEq, Eq)]
pub enum Error {
    /// A failure the client may be told of as it is.
    Common(CommonError),
    /// A failure of the database, which the client only learns as `Server`.
    Database(database::Error),
}

/// What the client is told of a server-side failure.
pub open spec fn told_to_client(error_value: Error) -> CommonError {
    match error_value {
        Error::Common(error_value) => error_value,
        Error::Database(_) => CommonError::Server,
    }
}

impl From<Error> for CommonError {
    fn from(value: Error) -> (told: CommonError) {
        match value {
            Error::Common(error_value) => error_value,
            Error::Database(_) => CommonError::Server,
        }
    }
}

impl vstd::std_specs::convert::FromSpecImpl<Error> for CommonError {
    open spec fn obeys_from_spec() -> bool {
        true
    }

    open spec fn from_spec(value: Error) -> CommonError {
        told_to_client(value)
    }
}

impl Error {
    /// The text logged for this error.
    pub open spec fn description(&self) -> Seq<char> {
        match self {
            Error::Common(error_value) => error_value.description(),
            Error::Database(error_value) => error_value.description(),
        }
    }

    /// Writes the text logged for this error.
    pub fn describe(&self) -> (text: String)
        ensures
            text@ == self.description(),
    {
        match self {
            Error::Common(error_value) => error_value.describe(),
            Error::Database(error_value) => error_value.describe(),
        }
    }
}

} // verus!
