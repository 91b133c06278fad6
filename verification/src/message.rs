//! A message as the client sees it.

use vstd::prelude::*;

verus! {

/// A message: its identifier, author, community and body.
#[derive(Debug)]
pub struct Message {
    message_id: String,
    user_id: String,
    community_id: String,
    message_body: String,
}

impl Clone for Message {
    fn clone(&self) -> (copy: Self)
        ensures
            copy == *self,
    {
        Message { message_id: self.message_id.clone(), user_id: self.user_id.clone(), community_id: self.community_id.clone(), message_body: self.message_body.clone() }
    }
}

impl Message {
    pub closed spec fn message_id(&self) -> Seq<char> {
        self.message_id@
    }

    pub closed spec fn user_id(&self) -> Seq<char> {
        self.user_id@
    }

    pub closed spec fn community_id(&self) -> Seq<char> {
        self.community_id@
    }

    pub closed spec fn message_body(&self) -> Seq<char> {
        self.message_body@
    }

    /// The value made of the given strings, moved in as they are.
    pub closed spec fn assembled(message_id: String, user_id: String, community_id: String, message_body: String) -> Message {
        Message { message_id, user_id, community_id, message_body }
    }

    /// Builds the value from owned strings, moving them in.
    pub fn from_parts(message_id: String, user_id: String, community_id: String, message_body: String) -> (built: Message)
        ensures
            built == Message::assembled(message_id, user_id, community_id, message_body),
            built.message_id() == message_id@,
            built.user_id() == user_id@,
            built.community_id() == community_id@,
            built.message_body() == message_body@,
    {
        Message { message_id, user_id, community_id, message_body }
    }

    /// What `assembled` gives holds the strings it was given.
    pub proof fn lemma_assembled(message_id: String, user_id: String, community_id: String, message_body: String)
        ensures
            Message::assembled(message_id, user_id, community_id, message_body).message_id() == message_id@,
            Message::assembled(message_id, user_id, community_id, message_body).user_id() == user_id@,
            Message::assembled(message_id, user_id, community_id, message_body).community_id() == community_id@,
            Message::assembled(message_id, user_id, community_id, message_body).message_body() == message_body@,
    {
    }

    pub fn new(message_id: &str, user_id: &str, community_id: &str, message_body: &str) -> (built: Self)
        ensures
            built.message_id() == message_id@,
            built.user_id() == user_id@,
            built.community_id() == community_id@,
            built.message_body() == message_body@,
    {
        Self { message_id: message_id.to_owned(), user_id: user_id.to_owned(), community_id: community_id.to_owned(), message_body: message_body.to_owned() }
    }

    pub fn get_id(&self) -> (message_id: &str)
        ensures
            message_id@ == self.message_id(),
    {
        self.message_id.as_str()
    }

    pub fn get_community_id(&self) -> (community_id: &str)
        ensures
            community_id@ == self.community_id(),
    {
        self.community_id.as_str()
    }

    pub fn get_user_id(&self) -> (user_id: &str)
        ensures
            user_id@ == self.user_id(),
    {
        self.user_id.as_str()
    }

    pub fn get_message_body(&self) -> (message_body: &str)
        ensures
            message_body@ == self.message_body(),
    {
        self.message_body.as_str()
    }
}

} // verus!
