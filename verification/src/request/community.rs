//! Requests on communities.

use vstd::prelude::*;

use crate::error::Error;
use crate::validate::{community_name_verdict, validate_community_name};

verus! {

/// Asks for a new community with the given name.
#[derive(Debug, Clone)]
pub struct CreateCommunity {
    community_name: String,
}

impl CreateCommunity {
    pub closed spec fn community_name(&self) -> Seq<char> {
        self.community_name@
    }

    /// Builds the request when the name passes `validate_community_name`.
    pub fn new(community_name: &str) -> (result: Result<Self, Error>)
        ensures
            match community_name_verdict(community_name@) {
                Ok(_) => result matches Ok(create_community)
                    && create_community.community_name() == community_name@,
                Err(error_value) => result == Err::<Self, Error>(Error::Community(error_value)),
            },
    {
        let community_name = community_name.to_owned();
        match validate_community_name(community_name.as_str()) {
            Ok(()) => Ok(Self { community_name }),
            Err(error_value) => Err(Error::Community(error_value)),
        }
    }

    /// The request as it arrived from a client, its fields moved in unchecked: the server
    /// validates them again before it acts on them.
    pub fn received(community_name: String) -> (create_community: Self)
        ensures
            create_community.community_name() == community_name@,
    {
        Self { community_name }
    }

    pub fn get_community_name(&self) -> (community_name: &str)
        ensures
            community_name@ == self.community_name(),
    {
        self.community_name.as_str()
    }
}

/// Asks for the community with the given identifier.
#[derive(Debug, Clone)]
pub struct ReadCommunity {
    community_id: String,
}

impl ReadCommunity {
    pub closed spec fn community_id(&self) -> Seq<char> {
        self.community_id@
    }

    pub fn new(community_id: &str) -> (read_community: Self)
        ensures
            read_community.community_id() == community_id@,
    {
        Self { community_id: community_id.to_owned() }
    }

    pub fn get_community_id(&self) -> (community_id: &str)
        ensures
            community_id@ == self.community_id(),
    {
        self.community_id.as_str()
    }
}

/// Asks to rename a community.
#[derive(Debug, Clone)]
pub struct UpdateCommunity {
    community_id: String,
    community_name: String,
}

impl UpdateCommunity {
    pub closed spec fn community_id(&self) -> Seq<char> {
        self.community_id@
    }

    pub closed spec fn community_name(&self) -> Seq<char> {
        self.community_name@
    }

    /// Builds the request when the new name passes `validate_community_name`.
    pub fn new(community_id: &str, community_name: &str) -> (result: Result<Self, Error>)
        ensures
            match community_name_verdict(community_name@) {
                Ok(_) => result matches Ok(update_community)
                    && update_community.community_id() == community_id@
                    && update_community.community_name() == community_name@,
                Err(error_value) => result == Err::<Self, Error>(Error::Community(error_value)),
            },
    {
        let community_id = community_id.to_owned();
        let community_name = community_name.to_owned();
        match validate_community_name(community_name.as_str()) {
            Ok(()) => Ok(Self { community_id, community_name }),
            Err(error_value) => Err(Error::Community(error_value)),
        }
    }

    /// The request as it arrived from a client, its fields moved in unchecked: the server
    /// validates them again before it acts on them.
    pub fn received(community_id: String, community_name: String) -> (update_community: Self)
        ensures
            update_community.community_id() == community_id@,
            update_community.community_name() == community_name@,
    {
        Self { community_id, community_name }
    }

    pub fn get_community_id(&self) -> (community_id: &str)
        ensures
            community_id@ == self.community_id(),
    {
        self.community_id.as_str()
    }

    pub fn get_community_name(&self) -> (community_name: &str)
        ensures
            community_name@ == self.community_name(),
    {
        self.community_name.as_str()
    }
}

/// Asks to remove a community.
#[derive(Debug, Clone)]
pub struct DeleteCommunity {
    community_id: String,
}

impl DeleteCommunity {
    pub closed spec fn community_id(&self) -> Seq<char> {
        self.community_id@
    }

    pub fn new(community_id: &str) -> (delete_community: Self)
        ensures
            delete_community.community_id() == community_id@,
    {
        Self { community_id: community_id.to_owned() }
    }

    pub fn get_community_id(&self) -> (community_id: &str)
        ensures
            community_id@ == self.community_id(),
    {
        self.community_id.as_str()
    }
}

} // verus!
