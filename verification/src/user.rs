//! A user account as the client sees it.

use vstd::prelude::*;

verus! {

/// An account: its identifier and its name.
#[derive(Debug)]
pub struct User {
    user_id: String,
    username: String,
}

impl Clone for User {
    fn clone(&self) -> (copy: Self)
        ensures
            copy == *self,
    {
        User { user_id: self.user_id.clone(), username: self.username.clone() }
    }
}

impl User {
    pub closed spec fn user_id(&self) -> Seq<char> {
        self.user_id@
    }

    pub closed spec fn username(&self) -> Seq<char> {
        self.username@
    }

    /// The value made of the given strings, moved in as they are.
    pub closed spec fn assembled(user_id: String, username: String) -> User {
        User { user_id, username }
    }

    /// Builds the value from owned strings, moving them in.
    pub fn from_parts(user_id: String, username: String) -> (built: User)
        ensures
            built == User::assembled(user_id, username),
            built.user_id() == user_id@,
            built.username() == username@,
    {
        User { user_id, username }
    }

    /// What `assembled` gives holds the strings it was given.
    pub proof fn lemma_assembled(user_id: String, username: String)
        ensures
            User::assembled(user_id, username).user_id() == user_id@,
            User::assembled(user_id, username).username() == username@,
    {
    }

    pub fn new(user_id: &str, username: &str) -> (built: Self)
        ensures
            built.user_id() == user_id@,
            built.username() == username@,
    {
        Self { user_id: user_id.to_owned(), username: username.to_owned() }
    }

    pub fn get_user_id(&self) -> (user_id: &str)
        ensures
            user_id@ == self.user_id(),
    {
        self.user_id.as_str()
    }

    pub fn get_username(&self) -> (username: &str)
        ensures
            username@ == self.username(),
    {
        self.username.as_str()
    }
}

} // verus!
