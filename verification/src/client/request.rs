//! How the client reads the server's answer to each kind of request.

use vstd::prelude::*;

use crate::community::Community;
use crate::error::Error;
use crate::message::Message;
use crate::request::{answers, RequestKind};
use crate::response::Response;
use crate::user::User;

verus! {

/// The kinds of request answered with a user.
pub open spec fn yields_user(kind: RequestKind) -> bool {
    ||| kind == RequestKind::Authentication
    ||| kind == RequestKind::Deauthentication
    ||| kind == RequestKind::CreateUser
    ||| kind == RequestKind::ReadUser
    ||| kind == RequestKind::UpdateUser
    ||| kind == RequestKind::DeleteUser
}

/// The kinds of request answered with a community.
pub open spec fn yields_community(kind: RequestKind) -> bool {
    ||| kind == RequestKind::CreateCommunity
    ||| kind == RequestKind::ReadCommunity
    ||| kind == RequestKind::UpdateCommunity
    ||| kind == RequestKind::DeleteCommunity
}

/// The kinds of request answered with a message.
pub open spec fn yields_message(kind: RequestKind) -> bool {
    ||| kind == RequestKind::CreateMessage
    ||| kind == RequestKind::ReadMessage
    ||| kind == RequestKind::UpdateMessage
    ||| kind == RequestKind::DeleteMessage
}

/// The kinds of request answered with nothing but success.
pub open spec fn yields_nothing(kind: RequestKind) -> bool {
    kind == RequestKind::JoinCommunity || kind == RequestKind::LeaveCommunity
}

/// The kinds of request answered with a list of keys.
pub open spec fn yields_keys(kind: RequestKind) -> bool {
    kind == RequestKind::UsersIn || kind == RequestKind::CommunityOf
}

/// What the client makes of an answer: the error the server reported, the payload of the
/// variant that answers the request, or `Server` for any other variant.
pub open spec fn reading<T>(kind: RequestKind, response: Response, payload: Option<T>) -> Result<
    T,
    Error,
> {
    match response {
        Response::Error(error_value) => Err(error_value),
        _ => if answers(kind, response) && payload is Some {
            Ok(payload->0)
        } else {
            Err(Error::Server)
        },
    }
}

/// The user a response carries.
pub open spec fn user_in(response: Response) -> Option<User> {
    match response {
        Response::Authentication(user) | Response::Deauthentication(user) | Response::CreateUser(
            user,
        ) | Response::ReadUser(user) | Response::UpdateUser(user) | Response::DeleteUser(user) => Some(
            user,
        ),
        _ => None,
    }
}

/// The community a response carries.
pub open spec fn community_in(response: Response) -> Option<Community> {
    match response {
        Response::CreateCommunity(community) | Response::ReadCommunity(community)
        | Response::UpdateCommunity(community) | Response::DeleteCommunity(community) => Some(
            community,
        ),
        _ => None,
    }
}

/// The message a response carries.
pub open spec fn message_in(response: Response) -> Option<Message> {
    match response {
        Response::CreateMessage(message) | Response::ReadMessage(message)
        | Response::UpdateMessage(message) | Response::DeleteMessage(message) => Some(message),
        _ => None,
    }
}

/// Whether a response is a bare success.
pub open spec fn nothing_in(response: Response) -> Option<()> {
    match response {
        Response::JoinCommunity | Response::LeaveCommunity => Some(()),
        _ => None,
    }
}

/// The keys a response carries.
pub open spec fn keys_in(response: Response) -> Option<Vec<String>> {
    match response {
        Response::UsersIn(keys) | Response::CommunityOf(keys) => Some(keys),
        _ => None,
    }
}

/// The membership answer a response carries.
pub open spec fn membership_in(response: Response) -> Option<bool> {
    match response {
        Response::IsUserIn(member) => Some(member),
        _ => None,
    }
}

/// Reads an answer that should carry a user.
pub fn user_reply(kind: RequestKind, response: Response) -> (result: Result<User, Error>)
    ensures
        result == reading(kind, response, user_in(response)),
{
    match response {
        Response::Authentication(user) => if kind == RequestKind::Authentication {
            Ok(user)
        } else {
            Err(Error::Server)
        },
        Response::Deauthentication(user) => if kind == RequestKind::Deauthentication {
            Ok(user)
        } else {
            Err(Error::Server)
        },
        Response::CreateUser(user) => if kind == RequestKind::CreateUser {
            Ok(user)
        } else {
            Err(Error::Server)
        },
        Response::ReadUser(user) => if kind == RequestKind::ReadUser {
            Ok(user)
        } else {
            Err(Error::Server)
        },
        Response::UpdateUser(user) => if kind == RequestKind::UpdateUser {
            Ok(user)
        } else {
            Err(Error::Server)
        },
        Response::DeleteUser(user) => if kind == RequestKind::DeleteUser {
            Ok(user)
        } else {
            Err(Error::Server)
        },
        Response::Error(error_value) => Err(error_value),
        _ => Err(Error::Server),
    }
}

/// Reads an answer that should carry a community.
pub fn community_reply(kind: RequestKind, response: Response) -> (result: Result<
    Community,
    Error,
>)
    ensures
        result == reading(kind, response, community_in(response)),
{
    match response {
        Response::CreateCommunity(community) => if kind == RequestKind::CreateCommunity {
            Ok(community)
        } else {
            Err(Error::Server)
        },
        Response::ReadCommunity(community) => if kind == RequestKind::ReadCommunity {
            Ok(community)
        } else {
            Err(Error::Server)
        },
        Response::UpdateCommunity(community) => if kind == RequestKind::UpdateCommunity {
            Ok(community)
        } else {
            Err(Error::Server)
        },
        Response::DeleteCommunity(community) => if kind == RequestKind::DeleteCommunity {
            Ok(community)
        } else {
            Err(Error::Server)
        },
        Response::Error(error_value) => Err(error_value),
        _ => Err(Error::Server),
    }
}

/// Reads an answer that should carry a message.
pub fn message_reply(kind: RequestKind, response: Response) -> (result: Result<Message, Error>)
    ensures
        result == reading(kind, response, message_in(response)),
{
    match response {
        Response::CreateMessage(message) => if kind == RequestKind::CreateMessage {
            Ok(message)
        } else {
            Err(Error::Server)
        },
        Response::ReadMessage(message) => if kind == RequestKind::ReadMessage {
            Ok(message)
        } else {
            Err(Error::Server)
        },
        Response::UpdateMessage(message) => if kind == RequestKind::UpdateMessage {
            Ok(message)
        } else {
            Err(Error::Server)
        },
        Response::DeleteMessage(message) => if kind == RequestKind::DeleteMessage {
            Ok(message)
        } else {
            Err(Error::Server)
        },
        Response::Error(error_value) => Err(error_value),
        _ => Err(Error::Server),
    }
}

/// Reads an answer that should be a bare success.
pub fn unit_reply(kind: RequestKind, response: Response) -> (result: Result<(), Error>)
    ensures
        result == reading(kind, response, nothing_in(response)),
{
    match response {
        Response::JoinCommunity => if kind == RequestKind::JoinCommunity {
            Ok(())
        } else {
            Err(Error::Server)
        },
        Response::LeaveCommunity => if kind == RequestKind::LeaveCommunity {
            Ok(())
        } else {
            Err(Error::Server)
        },
        Response::Error(error_value) => Err(error_value),
        _ => Err(Error::Server),
    }
}

/// Reads an answer that should carry a membership answer.
pub fn membership_reply(kind: RequestKind, response: Response) -> (result: Result<bool, Error>)
    ensures
        result == reading(kind, response, membership_in(response)),
{
    match response {
        Response::IsUserIn(member) => if kind == RequestKind::IsUserIn {
            Ok(member)
        } else {
            Err(Error::Server)
        },
        Response::Error(error_value) => Err(error_value),
        _ => Err(Error::Server),
    }
}

/// Reads an answer that should carry a list of keys.
pub fn keys_reply(kind: RequestKind, response: Response) -> (result: Result<Vec<String>, Error>)
    ensures
        result == reading(kind, response, keys_in(response)),
{
    match response {
        Response::UsersIn(keys) => if kind == RequestKind::UsersIn {
            Ok(keys)
        } else {
            Err(Error::Server)
        },
        Response::CommunityOf(keys) => if kind == RequestKind::CommunityOf {
            Ok(keys)
        } else {
            Err(Error::Server)
        },
        Response::Error(error_value) => Err(error_value),
        _ => Err(Error::Server),
    }
}

/// Every answer that answers a request is understood by the client: it reads the
/// server's error as that error, and any other answer as its payload.
pub proof fn law_answers_are_understood(kind: RequestKind, response: Response)
    requires
        answers(kind, response),
    ensures
        response matches Response::Error(error_value) ==> {
            &&& reading(kind, response, user_in(response)) == Err::<User, Error>(error_value)
            &&& reading(kind, response, community_in(response)) == Err::<Community, Error>(
                error_value,
            )
            &&& reading(kind, response, message_in(response)) == Err::<Message, Error>(error_value)
            &&& reading(kind, response, nothing_in(response)) == Err::<(), Error>(error_value)
            &&& reading(kind, response, membership_in(response)) == Err::<bool, Error>(error_value)
            &&& reading(kind, response, keys_in(response)) == Err::<Vec<String>, Error>(
                error_value,
            )
        },
        !(response is Error) && yields_user(kind) ==> reading(kind, response, user_in(response))
            is Ok,
        !(response is Error) && yields_community(kind) ==> reading(
            kind,
            response,
            community_in(response),
        ) is Ok,
        !(response is Error) && yields_message(kind) ==> reading(
            kind,
            response,
            message_in(response),
        ) is Ok,
        !(response is Error) && yields_nothing(kind) ==> reading(
            kind,
            response,
            nothing_in(response),
        ) is Ok,
        !(response is Error) && kind == RequestKind::IsUserIn ==> reading(
            kind,
            response,
            membership_in(response),
        ) is Ok,
        !(response is Error) && yields_keys(kind) ==> reading(kind, response, keys_in(response))
            is Ok,
{
}

} // verus!
