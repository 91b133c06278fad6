//! Requests on user accounts.

use vstd::prelude::*;

use crate::error::Error;
use crate::validate::{username_verdict, validate_username};

verus! {

/// Asks for a new account with the given name.
#[derive(Debug, Clone)]
pub struct CreateUser {
    username: String,
}

impl CreateUser {
    pub closed spec fn username(&self) -> Seq<char> {
        self.username@
    }

    /// Builds the request when the name passes `validate_username`.
    pub fn new(username: &str) -> (result: Result<Self, Error>)
        ensures
            match username_verdict(username@) {
                Ok(_) => result matches Ok(create_user) && create_user.username() == username@,
                Err(error_value) => result == Err::<Self, Error>(Error::User(error_value)),
            },
    {
        let username = username.to_owned();
        match validate_username(username.as_str()) {
            Ok(()) => Ok(Self { username }),
            Err(error_value) => Err(Error::User(error_value)),
        }
    }

    /// The request as it arrived from a client, its fields moved in unchecked: the server
    /// validates them again before it acts on them.
    pub fn received(username: String) -> (create_user: Self)
        ensures
            create_user.username() == username@,
    {
        Self { username }
    }

    pub fn get_username(&self) -> (username: &str)
        ensures
            username@ == self.username(),
    {
        self.username.as_str()
    }
}

/// Asks for the account with the given identifier.
#[derive(Debug, Clone)]
pub struct ReadUser {
    user_id: String,
}

impl ReadUser {
    pub closed spec fn user_id(&self) -> Seq<char> {
        self.user_id@
    }

    pub fn new(user_id: &str) -> (read_user: Self)
        ensures
            read_user.user_id() == user_id@,
    {
        Self { user_id: user_id.to_owned() }
    }

    pub fn get_user_id(&self) -> (user_id: &str)
        ensures
            user_id@ == self.user_id(),
    {
        self.user_id.as_str()
    }
}

/// Asks to rename an account.
#[derive(Debug, Clone)]
pub struct UpdateUser {
    user_id: String,
    username: String,
}

impl UpdateUser {
    pub closed spec fn user_id(&self) -> Seq<char> {
        self.user_id@
    }

    pub closed spec fn username(&self) -> Seq<char> {
        self.username@
    }

    /// Builds the request when the new name passes `validate_username`.
    pub fn new(user_id: &str, username: &str) -> (result: Result<Self, Error>)
        ensures
            match username_verdict(username@) {
                Ok(_) => result matches Ok(update_user) && update_user.user_id() == user_id@
                    && update_user.username() == username@,
                Err(error_value) => result == Err::<Self, Error>(Error::User(error_value)),
            },
    {
        let user_id = user_id.to_owned();
        let username = username.to_owned();
        match validate_username(username.as_str()) {
            Ok(()) => Ok(Self { user_id, username }),
            Err(error_value) => Err(Error::User(error_value)),
        }
    }

    /// The request as it arrived from a client, its fields moved in unchecked: the server
    /// validates them again before it acts on them.
    pub fn received(user_id: String, username: String) -> (update_user: Self)
        ensures
            update_user.user_id() == user_id@,
            update_user.username() == username@,
    {
        Self { user_id, username }
    }

    pub fn get_user_id(&self) -> (user_id: &str)
        ensures
            user_id@ == self.user_id(),
    {
        self.user_id.as_str()
    }

    pub fn get_username(&self) -> (username: &str)
        ensures
            username@ == self.username(),
    {
        self.username.as_str()
    }
}

/// Asks to remove an account.
#[derive(Debug, Clone)]
pub struct DeleteUser {
    user_id: String,
}

impl DeleteUser {
    pub closed spec fn user_id(&self) -> Seq<char> {
        self.user_id@
    }

    pub fn new(user_id: &str) -> (delete_user: Self)
        ensures
            delete_user.user_id() == user_id@,
    {
        Self { user_id: user_id.to_owned() }
    }

    pub fn get_user_id(&self) -> (user_id: &str)
        ensures
            user_id@ == self.user_id(),
    {
        self.user_id.as_str()
    }
}

} // verus!
