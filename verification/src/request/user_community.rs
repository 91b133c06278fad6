//! Requests on who belongs to which community.

use vstd::prelude::*;

verus! {

/// Asks to add a user to a community.
#[derive(Debug, Clone)]
pub struct JoinCommunity {
    user_id: String,
    community_id: String,
}

impl JoinCommunity {
    pub closed spec fn user_id(&self) -> Seq<char> {
        self.user_id@
    }

    pub closed spec fn community_id(&self) -> Seq<char> {
        self.community_id@
    }

    pub fn new(user_id: &str, community_id: &str) -> (request: Self)
        ensures
            request.user_id() == user_id@,
            request.community_id() == community_id@,
    {
        Self { user_id: user_id.to_owned(), community_id: community_id.to_owned() }
    }

    pub fn get_user_id(&self) -> (user_id: &str)
        ensures
            user_id@ == self.user_id(),
    {
        self.user_id.as_str()
    }

    pub fn get_community_id(&self) -> (community_id: &str)
        ensures
            community_id@ == self.community_id(),
    {
        self.community_id.as_str()
    }
}

/// Asks to remove a user from a community.
#[derive(Debug, Clone)]
pub struct LeaveCommunity {
    user_id: String,
    community_id: String,
}

impl LeaveCommunity {
    pub closed spec fn user_id(&self) -> Seq<char> {
        self.user_id@
    }

    pub closed spec fn community_id(&self) -> Seq<char> {
        self.community_id@
    }

    pub fn new(user_id: &str, community_id: &str) -> (request: Self)
        ensures
            request.user_id() == user_id@,
            request.community_id() == community_id@,
    {
        Self { user_id: user_id.to_owned(), community_id: community_id.to_owned() }
    }

    pub fn get_user_id(&self) -> (user_id: &str)
        ensures
            user_id@ == self.user_id(),
    {
        self.user_id.as_str()
    }

    pub fn get_community_id(&self) -> (community_id: &str)
        ensures
            community_id@ == self.community_id(),
    {
        self.community_id.as_str()
    }
}

/// Asks whether a user belongs to a community.
#[derive(Debug, Clone)]
pub struct IsUserIn {
    user_id: String,
    community_id: String,
}

impl IsUserIn {
    pub closed spec fn user_id(&self) -> Seq<char> {
        self.user_id@
    }

    pub closed spec fn community_id(&self) -> Seq<char> {
        self.community_id@
    }

    pub fn new(user_id: &str, community_id: &str) -> (request: Self)
        ensures
            request.user_id() == user_id@,
            request.community_id() == community_id@,
    {
        Self { user_id: user_id.to_owned(), community_id: community_id.to_owned() }
    }

    pub fn get_user_id(&self) -> (user_id: &str)
        ensures
            user_id@ == self.user_id(),
    {
        self.user_id.as_str()
    }

    pub fn get_community_id(&self) -> (community_id: &str)
        ensures
            community_id@ == self.community_id(),
    {
        self.community_id.as_str()
    }
}

/// Asks for the members of a community.
#[derive(Debug, Clone)]
pub struct UsersIn {
    community_id: String,
}

impl UsersIn {
    pub closed spec fn community_id(&self) -> Seq<char> {
        self.community_id@
    }

    pub fn new(community_id: &str) -> (request: Self)
        ensures
            request.community_id() == community_id@,
    {
        Self { community_id: community_id.to_owned() }
    }

    pub fn get_community_id(&self) -> (community_id: &str)
        ensures
            community_id@ == self.community_id(),
    {
        self.community_id.as_str()
    }
}

/// Asks for the communities a user belongs to.
#[derive(Debug, Clone)]
pub struct CommunityOf {
    user_id: String,
}

impl CommunityOf {
    pub closed spec fn user_id(&self) -> Seq<char> {
        self.user_id@
    }

    pub fn new(user_id: &str) -> (request: Self)
        ensures
            request.user_id() == user_id@,
    {
        Self { user_id: user_id.to_owned() }
    }

    pub fn get_user_id(&self) -> (user_id: &str)
        ensures
            user_id@ == self.user_id(),
    {
        self.user_id.as_str()
    }
}

} // verus!
