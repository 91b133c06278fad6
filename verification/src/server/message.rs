//! Message records as the server keeps them.

use vstd::prelude::*;

use crate::error::Error as CommonError;
use crate::message::Message as CommonMessage;
use crate::server::community::CommunityID;
use crate::server::error::Error;
use crate::order::text_leq;
use crate::server::identifier::{is_ulid_text, KeyGenerator};
use crate::server::user::UserID;
use crate::validate::{message_body_verdict, validate_message_body};

verus! {

/// The key of a record in the message table.
#[derive(Debug, PartialEq, Eq, PartialOrd, Ord, Hash)]
pub struct MessageID {
    key: String,
}

impl Clone for MessageID {
    fn clone(&self) -> (copy: Self)
        ensures
            copy == *self,
    {
        MessageID { key: self.key.clone() }
    }
}

impl MessageID {
    /// The key's text.
    pub open spec fn key(&self) -> Seq<char> {
        self.key_string()@
    }

    /// The key's string, as held.
    pub closed spec fn key_string(&self) -> String {
        self.key
    }

    /// The identifier with the given key.
    pub fn from_key(key: &str) -> (id: Self)
        ensures
            id.key() == key@,
    {
        MessageID { key: key.to_owned() }
    }

    /// A fresh identifier drawn from the generator, its key sorting after every key the
    /// generator gave before; or `None`, the generator unchanged, when it cannot give one
    /// in this millisecond.
    pub fn generate(generator: &mut KeyGenerator) -> (id: Option<Self>)
        ensures
            match id {
                Some(id) => {
                    &&& is_ulid_text(id.key())
                    &&& text_leq(old(generator).last(), id.key())
                    &&& id.key() != old(generator).last()
                    &&& final(generator).last() == id.key()
                },
                None => final(generator).last() == old(generator).last(),
            },
    {
        match generator.next_key() {
            Some(key) => Some(MessageID { key }),
            None => None,
        }
    }

    /// The key's string, moved out.
    pub fn into_key(self) -> (key: String)
        ensures
            key == self.key_string(),
    {
        self.key
    }

    pub fn as_str(&self) -> (key: &str)
        ensures
            key@ == self.key(),
    {
        self.key.as_str()
    }
}

/// A message body that passed `validate_message_body`.
#[derive(Debug, PartialEq, Eq, PartialOrd, Ord)]
pub struct MessageBody(String);

impl Clone for MessageBody {
    fn clone(&self) -> (copy: Self)
        ensures
            copy == *self,
    {
        MessageBody(self.0.clone())
    }
}

impl MessageBody {
    pub closed spec fn text(&self) -> Seq<char> {
        self.0@
    }

    /// The body, when it passes `validate_message_body`.
    pub fn try_new(message_body: &str) -> (result: Result<Self, Error>)
        ensures
            match message_body_verdict(message_body@) {
                Ok(_) => result matches Ok(body) && body.text() == message_body@,
                Err(error_value) => result == Err::<Self, Error>(
                    Error::Common(CommonError::Message(error_value)),
                ),
            },
    {
        let message_body = message_body.to_owned();
        match validate_message_body(message_body.as_str()) {
            Ok(()) => Ok(MessageBody(message_body)),
            Err(error_value) => Err(Error::Common(CommonError::Message(error_value))),
        }
    }

    pub fn as_str(&self) -> (message_body: &str)
        ensures
            message_body@ == self.text(),
    {
        self.0.as_str()
    }
}

/// A message record: its key, its author, its community and its body.
#[derive(Debug, PartialEq, Eq, PartialOrd, Ord)]
pub struct Message {
    id: MessageID,
    user_id: UserID,
    community_id: CommunityID,
    message_body: MessageBody,
}

impl Clone for Message {
    fn clone(&self) -> (copy: Self)
        ensures
            copy == *self,
    {
        Message {
            id: self.id.clone(),
            user_id: self.user_id.clone(),
            community_id: self.community_id.clone(),
            message_body: self.message_body.clone(),
        }
    }
}

impl Message {
    pub closed spec fn id(&self) -> MessageID {
        self.id
    }

    pub closed spec fn user_id(&self) -> UserID {
        self.user_id
    }

    pub closed spec fn community_id(&self) -> CommunityID {
        self.community_id
    }

    pub closed spec fn message_body(&self) -> MessageBody {
        self.message_body
    }

    /// The record with the given key, author, community and body.
    pub closed spec fn made_of(
        id: MessageID,
        user_id: UserID,
        community_id: CommunityID,
        message_body: MessageBody,
    ) -> Message {
        Message { id, user_id, community_id, message_body }
    }

    /// The record `made_of` a key, an author, a community and a body holds each of them.
    pub proof fn lemma_made_of(
        id: MessageID,
        user_id: UserID,
        community_id: CommunityID,
        message_body: MessageBody,
    )
        ensures
            Message::made_of(id, user_id, community_id, message_body).id() == id,
            Message::made_of(id, user_id, community_id, message_body).user_id() == user_id,
            Message::made_of(id, user_id, community_id, message_body).community_id()
                == community_id,
            Message::made_of(id, user_id, community_id, message_body).message_body()
                == message_body,
    {
    }

    /// The record with the given key, author, community and body.
    pub fn from_parts(
        id: MessageID,
        user_id: UserID,
        community_id: CommunityID,
        message_body: MessageBody,
    ) -> (message: Message)
        ensures
            message == Message::made_of(id, user_id, community_id, message_body),
            message.id() == id,
            message.user_id() == user_id,
            message.community_id() == community_id,
            message.message_body() == message_body,
    {
        Message { id, user_id, community_id, message_body }
    }

    pub fn get_user_id(&self) -> (user_id: &UserID)
        ensures
            *user_id == self.user_id(),
    {
        &self.user_id
    }

    pub fn get_community_id(&self) -> (community_id: &CommunityID)
        ensures
            *community_id == self.community_id(),
    {
        &self.community_id
    }

    pub fn get_message_body(&self) -> (message_body: &MessageBody)
        ensures
            *message_body == self.message_body(),
    {
        &self.message_body
    }

    pub fn get_id(&self) -> (id: &MessageID)
        ensures
            *id == self.id(),
    {
        &self.id
    }

    /// The same record with a new body, when the body passes `validate_message_body`.
    pub fn set_message_body(self, message_body: &str) -> (result: Result<Message, Error>)
        ensures
            match message_body_verdict(message_body@) {
                Ok(_) => result matches Ok(message) && message.id() == self.id()
                    && message.user_id() == self.user_id() && message.community_id()
                    == self.community_id() && message.message_body().text() == message_body@,
                Err(error_value) => result == Err::<Message, Error>(
                    Error::Common(CommonError::Message(error_value)),
                ),
            },
    {
        let mut message = self;
        match MessageBody::try_new(message_body) {
            Ok(body) => {
                message.message_body = body;
                Ok(message)
            },
            Err(error_value) => Err(error_value),
        }
    }

    /// The record as the client sees it: the keys and the body, moved over.
    pub closed spec fn shown(self) -> CommonMessage {
        CommonMessage::assembled(
            self.id.key_string(),
            self.user_id.key_string(),
            self.community_id.key_string(),
            self.message_body.0,
        )
    }

    /// What the client sees holds the keys' texts and the body.
    pub proof fn lemma_shown(self)
        ensures
            self.shown().message_id() == self.id().key(),
            self.shown().user_id() == self.user_id().key(),
            self.shown().community_id() == self.community_id().key(),
            self.shown().message_body() == self.message_body().text(),
    {
        CommonMessage::lemma_assembled(
            self.id.key_string(),
            self.user_id.key_string(),
            self.community_id.key_string(),
            self.message_body.0,
        );
    }
}

impl From<Message> for CommonMessage {
    fn from(value: Message) -> (shown: CommonMessage) {
        CommonMessage::from_parts(
            value.id.into_key(),
            value.user_id.into_key(),
            value.community_id.into_key(),
            value.message_body.0,
        )
    }
}

impl vstd::std_specs::convert::FromSpecImpl<Message> for CommonMessage {
    open spec fn obeys_from_spec() -> bool {
        true
    }

    open spec fn from_spec(value: Message) -> CommonMessage {
        value.shown()
    }
}

} // verus!
