//! User records as the server keeps them.

use vstd::prelude::*;

use crate::error::Error as CommonError;
use crate::server::error::Error;
use crate::order::text_leq;
use crate::server::identifier::{is_ulid_text, KeyGenerator};
use crate::user::User as CommonUser;
use crate::validate::{username_verdict, validate_username};

verus! {

/// The key of a record in the user table.
#[derive(Debug, PartialEq, Eq, PartialOrd, Ord, Hash)]
pub struct UserID {
    key: String,
}

impl Clone for UserID {
    fn clone(&self) -> (copy: Self)
        ensures
            copy == *self,
    {
        UserID { key: self.key.clone() }
    }
}

impl UserID {
    /// The key's text.
    pub open spec fn key(&self) -> Seq<char> {
        self.key_string()@
    }

    /// The key's string, as held.
    pub closed spec fn key_string(&self) -> String {
        self.key
    }

    /// The identifier with the given key.
    pub fn from_key(key: &str) -> (id: Self)
        ensures
            id.key() == key@,
    {
        UserID { key: key.to_owned() }
    }

    /// A fresh identifier drawn from the generator, its key sorting after every key the
    /// generator gave before; or `None`, the generator unchanged, when it cannot give one
    /// in this millisecond.
    pub fn generate(generator: &mut KeyGenerator) -> (id: Option<Self>)
        ensures
            match id {
                Some(id) => {
                    &&& is_ulid_text(id.key())
                    &&& text_leq(old(generator).last(), id.key())
                    &&& id.key() != old(generator).last()
                    &&& final(generator).last() == id.key()
                },
                None => final(generator).last() == old(generator).last(),
            },
    {
        match generator.next_key() {
            Some(key) => Some(UserID { key }),
            None => None,
        }
    }

    /// The key's string, moved out.
    pub fn into_key(self) -> (key: String)
        ensures
            key == self.key_string(),
    {
        self.key
    }

    pub fn as_str(&self) -> (key: &str)
        ensures
            key@ == self.key(),
    {
        self.key.as_str()
    }
}

/// A user name that passed `validate_username`.
#[derive(Debug, PartialEq, Eq, PartialOrd, Ord, Hash)]
pub struct Username(String);

impl Clone for Username {
    fn clone(&self) -> (copy: Self)
        ensures
            copy == *self,
    {
        Username(self.0.clone())
    }
}

impl Username {
    pub closed spec fn text(&self) -> Seq<char> {
        self.0@
    }

    pub closed spec fn string(&self) -> String {
        self.0
    }

    /// The name, when it passes `validate_username`.
    pub fn try_new(username: &str) -> (result: Result<Self, Error>)
        ensures
            match username_verdict(username@) {
                Ok(_) => result matches Ok(name) && name.text() == username@,
                Err(error_value) => result == Err::<Self, Error>(
                    Error::Common(CommonError::User(error_value)),
                ),
            },
    {
        let username = username.to_owned();
        match validate_username(username.as_str()) {
            Ok(()) => Ok(Username(username)),
            Err(error_value) => Err(Error::Common(CommonError::User(error_value))),
        }
    }

    pub fn as_str(&self) -> (username: &str)
        ensures
            username@ == self.text(),
    {
        self.0.as_str()
    }
}

/// A user record: its key and its name.
#[derive(Debug, PartialEq, Eq, PartialOrd, Ord, Hash)]
pub struct User {
    id: UserID,
    username: Username,
}

impl Clone for User {
    fn clone(&self) -> (copy: Self)
        ensures
            copy == *self,
    {
        User { id: self.id.clone(), username: self.username.clone() }
    }
}

impl User {
    pub closed spec fn id(&self) -> UserID {
        self.id
    }

    pub closed spec fn username(&self) -> Username {
        self.username
    }

    /// The record with the given key and name.
    pub closed spec fn made_of(id: UserID, username: Username) -> User {
        User { id, username }
    }

    /// The record `made_of` a key and a name holds that key and that name.
    pub proof fn lemma_made_of(id: UserID, username: Username)
        ensures
            User::made_of(id, username).id() == id,
            User::made_of(id, username).username() == username,
    {
    }

    /// The record with the given key and name.
    pub fn from_parts(id: UserID, username: Username) -> (user: User)
        ensures
            user == User::made_of(id, username),
            user.id() == id,
            user.username() == username,
    {
        User { id, username }
    }

    pub fn get_id(&self) -> (id: &UserID)
        ensures
            *id == self.id(),
    {
        &self.id
    }

    pub fn get_username(&self) -> (username: &Username)
        ensures
            *username == self.username(),
    {
        &self.username
    }

    /// The same record under a new name, when the name passes `validate_username`.
    pub fn update_username(self, username: &str) -> (result: Result<User, Error>)
        ensures
            match username_verdict(username@) {
                Ok(_) => result matches Ok(user) && user.id() == self.id()
                    && user.username().text() == username@,
                Err(error_value) => result == Err::<User, Error>(
                    Error::Common(CommonError::User(error_value)),
                ),
            },
    {
        let mut user = self;
        match Username::try_new(username) {
            Ok(name) => {
                user.username = name;
                Ok(user)
            },
            Err(error_value) => Err(error_value),
        }
    }

    /// The record as the client sees it: the key and the name, moved over.
    pub closed spec fn shown(self) -> CommonUser {
        CommonUser::assembled(self.id.key, self.username.0)
    }

    /// What the client sees holds the key's text and the name.
    pub proof fn lemma_shown(self)
        ensures
            self.shown().user_id() == self.id().key(),
            self.shown().username() == self.username().text(),
    {
        CommonUser::lemma_assembled(self.id.key, self.username.0);
    }
}

impl From<User> for CommonUser {
    fn from(value: User) -> (shown: CommonUser) {
        CommonUser::from_parts(value.id.key, value.username.0)
    }
}

impl vstd::std_specs::convert::FromSpecImpl<User> for CommonUser {
    open spec fn obeys_from_spec() -> bool {
        true
    }

    open spec fn from_spec(value: User) -> CommonUser {
        value.shown()
    }
}

} // verus!
