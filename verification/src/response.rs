//! What the server answers.

use vstd::prelude::*;

use crate::community::Community;
use crate::error::Error;
use crate::message::Message;
use crate::user::User;

verus! {

/// One answer per kind of request, or the error the request ended in.
#[derive(Debug, Clone)]
pub enum Response {
    Authentication(User),
    Deauthentication(User),
    CreateUser(User),
    ReadUser(User),
    UpdateUser(User),
    DeleteUser(User),
    CreateCommunity(Community),
    ReadCommunity(Community),
    UpdateCommunity(Community),
    DeleteCommunity(Community),
    CreateMessage(Message),
    ReadMessage(Message),
    UpdateMessage(Message),
    DeleteMessage(Message),
    JoinCommunity,
    LeaveCommunity,
    IsUserIn(bool),
    UsersIn(Vec<String>),
    CommunityOf(Vec<String>),
    Error(Error),
}

} // verus!
