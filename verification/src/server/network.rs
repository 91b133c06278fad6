//! The server's decisions around connections: who is let in, what is pushed to whom,
//! and which subscribers are kept.

use vstd::prelude::*;

use crate::error::Error as CommonError;
use crate::message::Message;
use crate::request::Request;
use crate::response::Response;
use crate::server::error::Error;

verus! {

/// The first request of a connection must be a login: its token, or `Authenticate`.
pub fn admission_token(first_request: &Request) -> (token: Result<String, Error>)
    ensures
        match first_request {
            Request::Authentication(authentication) => token matches Ok(text) && text@
                == authentication.authentication_token(),
            _ => token == Err::<String, Error>(Error::Common(CommonError::Authenticate)),
        },
{
    match first_request {
        Request::Authentication(authentication) => Ok(
            authentication.get_authentication_token().to_owned(),
        ),
        _ => Err(Error::Common(CommonError::Authenticate)),
    }
}

/// A created message is pushed to the members of its community; no other answer is.
pub fn broadcast_of(response: &Response) -> (pushed: Option<Message>)
    ensures
        match response {
            Response::CreateMessage(message) => pushed == Some(*message),
            _ => pushed is None,
        },
{
    match response {
        Response::CreateMessage(message) => Some(message.clone()),
        _ => None,
    }
}

/// A subscriber is sent a message when the membership check answered that it belongs to
/// the message's community; a failed check counts as not belonging.
pub fn is_member(membership: &Result<bool, Error>) -> (member: bool)
    ensures
        member == (*membership == Ok::<bool, Error>(true)),
{
    match membership {
        Ok(answer) => *answer,
        Err(_) => false,
    }
}

/// A subscriber is kept unless it was sent the message and the sending failed.
pub fn keeps_subscriber(sent_to: bool, sending_succeeded: bool) -> (kept: bool)
    ensures
        kept == (!sent_to || sending_succeeded),
{
    if sent_to {
        sending_succeeded
    } else {
        true
    }
}

/// The map a list of subscriptions stands for: each entry in order, keyed by the user's
/// key and name, a later one replacing an earlier one with the same user.
pub open spec fn subscription_map<S>(entries: Seq<(String, String, S)>) -> Map<
    (Seq<char>, Seq<char>),
    S,
>
    decreases entries.len(),
{
    if entries.len() == 0 {
        Map::empty()
    } else {
        subscription_map(entries.drop_last()).insert(
            (entries.last().0@, entries.last().1@),
            entries.last().2,
        )
    }
}

/// No user (key and name together) occurs twice.
pub open spec fn users_distinct<S>(entries: Seq<(String, String, S)>) -> bool {
    forall|i: int, j: int|
        0 <= i < entries.len() && 0 <= j < entries.len() && i != j ==> (entries[i].0@, entries[i].1@)
            != (entries[j].0@, entries[j].1@)
}

proof fn lemma_subscription_map_update<S>(
    entries: Seq<(String, String, S)>,
    at: int,
    entry: (String, String, S),
)
    requires
        users_distinct(entries),
        0 <= at < entries.len(),
        (entries[at].0@, entries[at].1@) == (entry.0@, entry.1@),
    ensures
        subscription_map(entries.update(at, entry)) == subscription_map(entries).insert(
            (entry.0@, entry.1@),
            entry.2,
        ),
    decreases entries.len(),
{
    let updated = entries.update(at, entry);
    if at == entries.len() - 1 {
        assert(updated.drop_last() =~= entries.drop_last());
        assert(subscription_map(updated) =~= subscription_map(entries).insert(
            (entry.0@, entry.1@),
            entry.2,
        ));
    } else {
        assert(updated.drop_last() =~= entries.drop_last().update(at, entry));
        lemma_subscription_map_update(entries.drop_last(), at, entry);
        assert((entries.last().0@, entries.last().1@) != (entry.0@, entry.1@));
        assert(subscription_map(updated) =~= subscription_map(entries).insert(
            (entry.0@, entry.1@),
            entry.2,
        ));
    }
}

/// The users that created messages are pushed to, each with the stream to push on: one
/// stream per user, a user being its key and its name, a later login of the same user
/// replacing the earlier one.
pub struct Roster<S> {
    entries: Vec<(String, String, S)>,
}

impl<S> Roster<S> {
    /// No user is held twice.
    #[verifier::type_invariant]
    closed spec fn well_formed(self) -> bool {
        users_distinct(self.entries@)
    }

    /// Each subscribed user, by key and name, with its stream.
    pub closed spec fn subscribers(self) -> Map<(Seq<char>, Seq<char>), S> {
        subscription_map(self.entries@)
    }

    /// A roster with nobody in it.
    pub fn new() -> (roster: Self)
        ensures
            roster.subscribers() == Map::<(Seq<char>, Seq<char>), S>::empty(),
    {
        Roster { entries: Vec::new() }
    }

    /// Subscribes a user, replacing the stream of an earlier login of the same user.
    pub fn subscribe(&mut self, user_id: String, username: String, stream: S)
        ensures
            final(self).subscribers() == old(self).subscribers().insert(
                (user_id@, username@),
                stream,
            ),
    {
        proof {
            use_type_invariant(&*self);
        }
        let mut entries: Vec<(String, String, S)> = Vec::new();
        std::mem::swap(&mut entries, &mut self.entries);
        let mut at: usize = 0;
        while at < entries.len() && !(entries[at].0 == user_id && entries[at].1 == username)
            invariant
                at <= entries.len(),
                forall|t: int|
                    0 <= t < at ==> (entries@[t].0@, entries@[t].1@) != (user_id@, username@),
            decreases entries.len() - at,
        {
            at = at + 1;
        }
        if at < entries.len() {
            proof {
                lemma_subscription_map_update(entries@, at as int, (user_id, username, stream));
            }
            entries.set(at, (user_id, username, stream));
        } else {
            let ghost before = entries@;
            entries.push((user_id, username, stream));
            assert(entries@.drop_last() =~= before);
        }
        self.entries = entries;
    }

    /// Takes every subscription out, leaving the roster empty: each user once, with its
    /// stream.
    pub fn take_all(&mut self) -> (taken: Vec<(String, String, S)>)
        ensures
            users_distinct(taken@),
            subscription_map(taken@) == old(self).subscribers(),
            final(self).subscribers() == Map::<(Seq<char>, Seq<char>), S>::empty(),
    {
        proof {
            use_type_invariant(&*self);
        }
        let mut taken: Vec<(String, String, S)> = Vec::new();
        std::mem::swap(&mut taken, &mut self.entries);
        taken
    }
}

} // verus!
