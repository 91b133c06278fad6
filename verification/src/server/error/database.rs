use vstd::prelude::*;

verus! {

/// A failure of the database.
#[derive(Debug, Clone, PartialEq, Eq)]
pub enum Error {
    /// The database reported an error, with its text.
    Inner(String),
    /// Creating a record gave no record back.
    Create,
    /// No record with the identifier asked for.
    Read,
    /// Updating gave no record back: there was none to update.
    Update,
    /// Deleting gave no record back: there was none to delete.
    Delete,
}

impl Error {
    /// The text logged for this error.
    pub open spec fn description(&self) -> Seq<char> {
        match self {
            Error::Inner(text) => text@,
            Error::Create => "Creating a record failed"@,
            Error::Read => "Reading a record failed"@,
            Error::Update => "Updating a record failed"@,
            Error::Delete => "Deleting a record failed"@,
        }
    }

    /// Writes the text logged for this error.
    pub fn describe(&self) -> (text: String)
        ensures
            text@ == self.description(),
    {
        match self {
            Error::Inner(text) => text.clone(),
            Error::Create => "Creating a record failed".to_owned(),
            Error::Read => "Reading a record failed".to_owned(),
            Error::Update => "Updating a record failed".to_owned(),
            Error::Delete => "Deleting a record failed".to_owned(),
        }
    }
}

} // verus!
