use vstd::prelude::*;

use crate::text::{decimal, push_decimal};

verus! {

/// Transport failures, each with the text the transport gave.
#[derive(Debug, Clone, PartialEq, Eq)]
pub enum Error {
    AddressParse(String),
    InputOutput(String),
    Connect(String),
    Connection(String),
    Read(String),
    ReadToEnd(String),
    ReadExact(String),
    Write(String),
    ClosedStream(String),
    ConnectionError(String),
    ChannelClosed,
    /// A frame announced more bytes than allowed: (announced, allowed).
    ReadBoundExceed(usize, usize),
}

impl Error {
    /// The text shown for this error: the transport's own text where there is one.
    pub open spec fn description(&self) -> Seq<char> {
        match self {
            Error::AddressParse(text) => text@,
            Error::InputOutput(text) => text@,
            Error::Connect(text) => text@,
            Error::Connection(text) => text@,
            Error::Read(text) => text@,
            Error::ReadToEnd(text) => text@,
            Error::ReadExact(text) => text@,
            Error::Write(text) => text@,
            Error::ClosedStream(text) => text@,
            Error::ConnectionError(text) => text@,
            Error::ChannelClosed => "Channel Closed"@,
            Error::ReadBoundExceed(actual, expected) => "Read Bound Exceed | Actual = "@ + decimal(
                *actual as nat,
            ) + " | Expected = "@ + decimal(*expected as nat),
        }
    }

    /// Writes the text shown for this error.
    pub fn describe(&self) -> (text: String)
        ensures
            text@ == self.description(),
    {
        match self {
            Error::AddressParse(text) => text.clone(),
            Error::InputOutput(text) => text.clone(),
            Error::Connect(text) => text.clone(),
            Error::Connection(text) => text.clone(),
            Error::Read(text) => text.clone(),
            Error::ReadToEnd(text) => text.clone(),
            Error::ReadExact(text) => text.clone(),
            Error::Write(text) => text.clone(),
            Error::ClosedStream(text) => text.clone(),
            Error::ConnectionError(text) => text.clone(),
            Error::ChannelClosed => "Channel Closed".to_owned(),
            Error::ReadBoundExceed(actual, expected) => {
                let mut text = "Read Bound Exceed | Actual = ".to_owned();
                push_decimal(&mut text, *actual);
                text.append(" | Expected = ");
                push_decimal(&mut text, *expected);
                text
            },
        }
    }
}

} // verus!
