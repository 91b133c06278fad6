//! Errors that travel between client and server.

use vstd::prelude::*;

pub mod community;
pub mod decode;
pub mod file_operation;
pub mod message;
pub mod network;
pub mod user;

verus! {

/// Every failure a request can end in, as the client sees it.
#[derive(Debug, Clone, PartialEq, Eq)]
pub enum Error {
    Authenticate,
    User(user::Error),
    Message(message::Error),
    Community(community::Error),
    FileOperation(file_operation::Error),
    Network(network::Error),
    Decode(decode::Error),
    Server,
}

impl Error {
    /// The text shown for this error.
    pub open spec fn description(&self) -> Seq<char> {
        match self {
            Error::Authenticate => "Authenticate"@,
            Error::User(error_value) => error_value.description(),
            Error::Message(error_value) => error_value.description(),
            Error::Community(error_value) => error_value.description(),
            Error::FileOperation(error_value) => error_value.description(),
            Error::Network(error_value) => error_value.description(),
            Error::Decode(error_value) => error_value.description(),
            Error::Server => "Server"@,
        }
    }

    /// Writes the text shown for this error.
    pub fn describe(&self) -> (text: String)
        ensures
            text@ == self.description(),
    {
        match self {
            Error::Authenticate => "Authenticate".to_owned(),
            Error::User(error_value) => error_value.describe(),
            Error::Message(error_value) => error_value.describe(),
            Error::Community(error_value) => error_value.describe(),
            Error::FileOperation(error_value) => error_value.describe(),
            Error::Network(error_value) => error_value.describe(),
            Error::Decode(error_value) => error_value.describe(),
            Error::Server => "Server".to_owned(),
        }
    }
}

} // verus!
