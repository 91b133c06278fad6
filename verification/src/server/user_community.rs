//! Memberships: which user belongs to which community.

use vstd::prelude::*;

use crate::server::community::CommunityID;
use crate::server::user::UserID;

verus! {

/// A user joining or leaving a community.
#[derive(Debug)]
pub enum CommunityEvent {
    JoinCommunity(JoinCommunity),
    LeaveCommunity(LeaveCommunity),
}

/// A user joining a community.
#[derive(Debug)]
pub struct JoinCommunity {
    user_id: UserID,
    community_id: CommunityID,
}

impl JoinCommunity {
    pub closed spec fn user_id(&self) -> UserID {
        self.user_id
    }

    pub closed spec fn community_id(&self) -> CommunityID {
        self.community_id
    }

    pub fn new(user_id: &UserID, community_id: &CommunityID) -> (join_community: Self)
        ensures
            join_community.user_id() == *user_id,
            join_community.community_id() == *community_id,
    {
        JoinCommunity { user_id: user_id.clone(), community_id: community_id.clone() }
    }

    pub fn get_user_id(&self) -> (user_id: &UserID)
        ensures
            *user_id == self.user_id(),
    {
        &self.user_id
    }

    pub fn get_community_id(&self) -> (community_id: &CommunityID)
        ensures
            *community_id == self.community_id(),
    {
        &self.community_id
    }
}

/// A user leaving a community.
#[derive(Debug)]
pub struct LeaveCommunity {
    user_id: UserID,
    community_id: CommunityID,
}

impl LeaveCommunity {
    pub closed spec fn user_id(&self) -> UserID {
        self.user_id
    }

    pub closed spec fn community_id(&self) -> CommunityID {
        self.community_id
    }

    pub fn new(user_id: &UserID, community_id: &CommunityID) -> (leave_community: Self)
        ensures
            leave_community.user_id() == *user_id,
            leave_community.community_id() == *community_id,
    {
        LeaveCommunity { user_id: user_id.clone(), community_id: community_id.clone() }
    }

    pub fn get_user_id(&self) -> (user_id: &UserID)
        ensures
            *user_id == self.user_id(),
    {
        &self.user_id
    }

    pub fn get_community_id(&self) -> (community_id: &CommunityID)
        ensures
            *community_id == self.community_id(),
    {
        &self.community_id
    }
}

} // verus!
