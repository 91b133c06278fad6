//! Requests on messages.

use vstd::prelude::*;

use crate::error::Error;
use crate::validate::{message_body_verdict, validate_message_body};

verus! {

/// Asks to post a message in a community on behalf of a user.
#[derive(Debug, Clone)]
pub struct CreateMessage {
    community_id: String,
    user_id: String,
    message_body: String,
}

impl CreateMessage {
    pub closed spec fn community_id(&self) -> Seq<char> {
        self.community_id@
    }

    pub closed spec fn user_id(&self) -> Seq<char> {
        self.user_id@
    }

    pub closed spec fn message_body(&self) -> Seq<char> {
        self.message_body@
    }

    /// Builds the request when the body passes `validate_message_body`.
    pub fn new(user_id: &str, community_id: &str, message_body: &str) -> (result: Result<
        Self,
        Error,
    >)
        ensures
            match message_body_verdict(message_body@) {
                Ok(_) => result matches Ok(create_message) && create_message.user_id() == user_id@
                    && create_message.community_id() == community_id@
                    && create_message.message_body() == message_body@,
                Err(error_value) => result == Err::<Self, Error>(Error::Message(error_value)),
            },
    {
        let user_id = user_id.to_owned();
        let community_id = community_id.to_owned();
        let message_body = message_body.to_owned();
        match validate_message_body(message_body.as_str()) {
            Ok(()) => Ok(Self { community_id, user_id, message_body }),
            Err(error_value) => Err(Error::Message(error_value)),
        }
    }

    /// The request as it arrived from a client, its fields moved in unchecked: the server
    /// validates them again before it acts on them.
    pub fn received(user_id: String, community_id: String, message_body: String) -> (create_message: Self)
        ensures
            create_message.user_id() == user_id@,
            create_message.community_id() == community_id@,
            create_message.message_body() == message_body@,
    {
        Self { community_id, user_id, message_body }
    }

    pub fn get_community_id(&self) -> (community_id: &str)
        ensures
            community_id@ == self.community_id(),
    {
        self.community_id.as_str()
    }

    pub fn get_user_id(&self) -> (user_id: &str)
        ensures
            user_id@ == self.user_id(),
    {
        self.user_id.as_str()
    }

    pub fn get_message_body(&self) -> (message_body: &str)
        ensures
            message_body@ == self.message_body(),
    {
        self.message_body.as_str()
    }
}

/// Asks for the message with the given identifier.
#[derive(Debug, Clone)]
pub struct ReadMessage {
    message_id: String,
}

impl ReadMessage {
    pub closed spec fn message_id(&self) -> Seq<char> {
        self.message_id@
    }

    pub fn new(message_id: &str) -> (read_message: Self)
        ensures
            read_message.message_id() == message_id@,
    {
        Self { message_id: message_id.to_owned() }
    }

    pub fn get_message_id(&self) -> (message_id: &str)
        ensures
            message_id@ == self.message_id(),
    {
        self.message_id.as_str()
    }
}

/// Asks to replace the body of a message.
#[derive(Debug, Clone)]
pub struct UpdateMessage {
    message_id: String,
    message_body: String,
}

impl UpdateMessage {
    pub closed spec fn message_id(&self) -> Seq<char> {
        self.message_id@
    }

    pub closed spec fn message_body(&self) -> Seq<char> {
        self.message_body@
    }

    /// Builds the request when the new body passes `validate_message_body`.
    pub fn new(message_id: &str, message_body: &str) -> (result: Result<Self, Error>)
        ensures
            match message_body_verdict(message_body@) {
                Ok(_) => result matches Ok(update_message) && update_message.message_id()
                    == message_id@ && update_message.message_body() == message_body@,
                Err(error_value) => result == Err::<Self, Error>(Error::Message(error_value)),
            },
    {
        let message_id = message_id.to_owned();
        let message_body = message_body.to_owned();
        match validate_message_body(message_body.as_str()) {
            Ok(()) => Ok(Self { message_id, message_body }),
            Err(error_value) => Err(Error::Message(error_value)),
        }
    }

    /// The request as it arrived from a client, its fields moved in unchecked: the server
    /// validates them again before it acts on them.
    pub fn received(message_id: String, message_body: String) -> (update_message: Self)
        ensures
            update_message.message_id() == message_id@,
            update_message.message_body() == message_body@,
    {
        Self { message_id, message_body }
    }

    pub fn get_message_id(&self) -> (message_id: &str)
        ensures
            message_id@ == self.message_id(),
    {
        self.message_id.as_str()
    }

    pub fn get_message_body(&self) -> (message_body: &str)
        ensures
            message_body@ == self.message_body(),
    {
        self.message_body.as_str()
    }
}

/// Asks to remove a message.
#[derive(Debug, Clone)]
pub struct DeleteMessage {
    message_id: String,
}

impl DeleteMessage {
    pub closed spec fn message_id(&self) -> Seq<char> {
        self.message_id@
    }

    pub fn new(message_id: &str) -> (delete_message: Self)
        ensures
            delete_message.message_id() == message_id@,
    {
        Self { message_id: message_id.to_owned() }
    }

    pub fn get_message_id(&self) -> (message_id: &str)
        ensures
            message_id@ == self.message_id(),
    {
        self.message_id.as_str()
    }
}

} // verus!
