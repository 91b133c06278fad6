//! What a client asks of the server.

use vstd::prelude::*;

pub mod community;
pub mod message;
pub mod user;
pub mod user_community;

use self::community::{CreateCommunity, DeleteCommunity, ReadCommunity, UpdateCommunity};
use self::message::{CreateMessage, DeleteMessage, ReadMessage, UpdateMessage};
use self::user::{CreateUser, DeleteUser, ReadUser, UpdateUser};
use self::user_community::{CommunityOf, IsUserIn, JoinCommunity, LeaveCommunity, UsersIn};
use crate::response::Response;

verus! {

/// A request to log in with the given token.
#[derive(Debug, Clone)]
pub struct Authentication(String);

impl Authentication {
    /// The token carried.
    pub closed spec fn authentication_token(&self) -> Seq<char> {
        self.0@
    }

    pub fn new(authentication_token: &str) -> (authentication: Self)
        ensures
            authentication.authentication_token() == authentication_token@,
    {
        Self(authentication_token.to_owned())
    }

    pub fn get_authentication_token(&self) -> (authentication_token: &str)
        ensures
            authentication_token@ == self.authentication_token(),
    {
        self.0.as_str()
    }
}

/// A request to log out with the given token.
#[derive(Debug, Clone)]
pub struct Deauthentication(String);

impl Deauthentication {
    /// The token carried.
    pub closed spec fn authentication_token(&self) -> Seq<char> {
        self.0@
    }

    pub fn new(authentication_token: &str) -> (deauthentication: Self)
        ensures
            deauthentication.authentication_token() == authentication_token@,
    {
        Self(authentication_token.to_owned())
    }

    pub fn get_authentication_token(&self) -> (authentication_token: &str)
        ensures
            authentication_token@ == self.authentication_token(),
    {
        self.0.as_str()
    }
}

/// Every request the server answers.
#[derive(Debug, Clone)]
pub enum Request {
    Authentication(Authentication),
    Deauthentication(Deauthentication),
    CreateUser(CreateUser),
    ReadUser(ReadUser),
    UpdateUser(UpdateUser),
    DeleteUser(DeleteUser),
    CreateCommunity(CreateCommunity),
    ReadCommunity(ReadCommunity),
    UpdateCommunity(UpdateCommunity),
    DeleteCommunity(DeleteCommunity),
    CreateMessage(CreateMessage),
    ReadMessage(ReadMessage),
    UpdateMessage(UpdateMessage),
    DeleteMessage(DeleteMessage),
    JoinCommunity(JoinCommunity),
    LeaveCommunity(LeaveCommunity),
    IsUserIn(IsUserIn),
    UsersIn(UsersIn),
    CommunityOf(CommunityOf),
}

/// The kinds of request, one per variant of `Request`.
#[derive(Debug, Clone, Copy, PartialEq, Eq, Structural)]
pub enum RequestKind {
    Authentication,
    Deauthentication,
    CreateUser,
    ReadUser,
    UpdateUser,
    DeleteUser,
    CreateCommunity,
    ReadCommunity,
    UpdateCommunity,
    DeleteCommunity,
    CreateMessage,
    ReadMessage,
    UpdateMessage,
    DeleteMessage,
    JoinCommunity,
    LeaveCommunity,
    IsUserIn,
    UsersIn,
    CommunityOf,
}

/// The kind of a request.
pub open spec fn kind_of(request: Request) -> RequestKind {
    match request {
        Request::Authentication(_) => RequestKind::Authentication,
        Request::Deauthentication(_) => RequestKind::Deauthentication,
        Request::CreateUser(_) => RequestKind::CreateUser,
        Request::ReadUser(_) => RequestKind::ReadUser,
        Request::UpdateUser(_) => RequestKind::UpdateUser,
        Request::DeleteUser(_) => RequestKind::DeleteUser,
        Request::CreateCommunity(_) => RequestKind::CreateCommunity,
        Request::ReadCommunity(_) => RequestKind::ReadCommunity,
        Request::UpdateCommunity(_) => RequestKind::UpdateCommunity,
        Request::DeleteCommunity(_) => RequestKind::DeleteCommunity,
        Request::CreateMessage(_) => RequestKind::CreateMessage,
        Request::ReadMessage(_) => RequestKind::ReadMessage,
        Request::UpdateMessage(_) => RequestKind::UpdateMessage,
        Request::DeleteMessage(_) => RequestKind::DeleteMessage,
        Request::JoinCommunity(_) => RequestKind::JoinCommunity,
        Request::LeaveCommunity(_) => RequestKind::LeaveCommunity,
        Request::IsUserIn(_) => RequestKind::IsUserIn,
        Request::UsersIn(_) => RequestKind::UsersIn,
        Request::CommunityOf(_) => RequestKind::CommunityOf,
    }
}

/// A response answers a kind of request when it is the variant of that kind, or an error.
pub open spec fn answers(kind: RequestKind, response: Response) -> bool {
    match response {
        Response::Error(_) => true,
        Response::Authentication(_) => kind == RequestKind::Authentication,
        Response::Deauthentication(_) => kind == RequestKind::Deauthentication,
        Response::CreateUser(_) => kind == RequestKind::CreateUser,
        Response::ReadUser(_) => kind == RequestKind::ReadUser,
        Response::UpdateUser(_) => kind == RequestKind::UpdateUser,
        Response::DeleteUser(_) => kind == RequestKind::DeleteUser,
        Response::CreateCommunity(_) => kind == RequestKind::CreateCommunity,
        Response::ReadCommunity(_) => kind == RequestKind::ReadCommunity,
        Response::UpdateCommunity(_) => kind == RequestKind::UpdateCommunity,
        Response::DeleteCommunity(_) => kind == RequestKind::DeleteCommunity,
        Response::CreateMessage(_) => kind == RequestKind::CreateMessage,
        Response::ReadMessage(_) => kind == RequestKind::ReadMessage,
        Response::UpdateMessage(_) => kind == RequestKind::UpdateMessage,
        Response::DeleteMessage(_) => kind == RequestKind::DeleteMessage,
        Response::JoinCommunity => kind == RequestKind::JoinCommunity,
        Response::LeaveCommunity => kind == RequestKind::LeaveCommunity,
        Response::IsUserIn(_) => kind == RequestKind::IsUserIn,
        Response::UsersIn(_) => kind == RequestKind::UsersIn,
        Response::CommunityOf(_) => kind == RequestKind::CommunityOf,
    }
}

impl Request {
    /// The kind of this request.
    pub fn kind(&self) -> (kind: RequestKind)
        ensures
            kind == kind_of(*self),
    {
        match self {
            Request::Authentication(_) => RequestKind::Authentication,
            Request::Deauthentication(_) => RequestKind::Deauthentication,
            Request::CreateUser(_) => RequestKind::CreateUser,
            Request::ReadUser(_) => RequestKind::ReadUser,
            Request::UpdateUser(_) => RequestKind::UpdateUser,
            Request::DeleteUser(_) => RequestKind::DeleteUser,
            Request::CreateCommunity(_) => RequestKind::CreateCommunity,
            Request::ReadCommunity(_) => RequestKind::ReadCommunity,
            Request::UpdateCommunity(_) => RequestKind::UpdateCommunity,
            Request::DeleteCommunity(_) => RequestKind::DeleteCommunity,
            Request::CreateMessage(_) => RequestKind::CreateMessage,
            Request::ReadMessage(_) => RequestKind::ReadMessage,
            Request::UpdateMessage(_) => RequestKind::UpdateMessage,
            Request::DeleteMessage(_) => RequestKind::DeleteMessage,
            Request::JoinCommunity(_) => RequestKind::JoinCommunity,
            Request::LeaveCommunity(_) => RequestKind::LeaveCommunity,
            Request::IsUserIn(_) => RequestKind::IsUserIn,
            Request::UsersIn(_) => RequestKind::UsersIn,
            Request::CommunityOf(_) => RequestKind::CommunityOf,
        }
    }
}

} // verus!
