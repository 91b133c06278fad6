use vstd::prelude::*;

verus! {

/// Failures while reading a configuration file.
#[derive(Debug, Clone, PartialEq, Eq)]
pub enum Error {
    FileOpen(String),
    Read,
    /// The content holds no line at all.
    Empty,
    /// A field line holds no `=`.
    Split,
}

impl Error {
    /// The text shown for this error.
    pub open spec fn description(&self) -> Seq<char> {
        match self {
            Error::FileOpen(text) => "File open is failed| "@ + text@,
            Error::Read => "Read file context is failed"@,
            Error::Empty => "File is empty"@,
            Error::Split => "Splitting context is failed"@,
        }
    }

    /// Writes the text shown for this error.
    pub fn describe(&self) -> (text: String)
        ensures
            text@ == self.description(),
    {
        match self {
            Error::FileOpen(reason) => {
                let mut text = "File open is failed| ".to_owned();
                text.append(reason.as_str());
                text
            },
            Error::Read => "Read file context is failed".to_owned(),
            Error::Empty => "File is empty".to_owned(),
            Error::Split => "Splitting context is failed".to_owned(),
        }
    }
}

} // verus!
