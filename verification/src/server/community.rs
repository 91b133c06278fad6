//! Community records as the server keeps them.

use vstd::prelude::*;

use crate::error::Error as CommonError;
use crate::server::error::Error;
use crate::order::text_leq;
use crate::server::identifier::{is_ulid_text, KeyGenerator};
use crate::community::Community as CommonCommunity;
use crate::validate::{community_name_verdict, validate_community_name};

verus! {

/// The key of a record in the community table.
#[derive(Debug, PartialEq, Eq, PartialOrd, Ord, Hash)]
pub struct CommunityID {
    key: String,
}

impl Clone for CommunityID {
    fn clone(&self) -> (copy: Self)
        ensures
            copy == *self,
    {
        CommunityID { key: self.key.clone() }
    }
}

impl CommunityID {
    /// The key's text.
    pub open spec fn key(&self) -> Seq<char> {
        self.key_string()@
    }

    /// The key's string, as held.
    pub closed spec fn key_string(&self) -> String {
        self.key
    }

    /// The identifier with the given key.
    pub fn from_key(key: &str) -> (id: Self)
        ensures
            id.key() == key@,
    {
        CommunityID { key: key.to_owned() }
    }

    /// A fresh identifier drawn from the generator, its key sorting after every key the
    /// generator gave before; or `None`, the generator unchanged, when it cannot give one
    /// in this millisecond.
    pub fn generate(generator: &mut KeyGenerator) -> (id: Option<Self>)
        ensures
            match id {
                Some(id) => {
                    &&& is_ulid_text(id.key())
                    &&& text_leq(old(generator).last(), id.key())
                    &&& id.key() != old(generator).last()
                    &&& final(generator).last() == id.key()
                },
                None => final(generator).last() == old(generator).last(),
            },
    {
        match generator.next_key() {
            Some(key) => Some(CommunityID { key }),
            None => None,
        }
    }

    /// The key's string, moved out.
    pub fn into_key(self) -> (key: String)
        ensures
            key == self.key_string(),
    {
        self.key
    }

    pub fn as_str(&self) -> (key: &str)
        ensures
            key@ == self.key(),
    {
        self.key.as_str()
    }
}

/// A community name that passed `validate_community_name`.
#[derive(Debug, PartialEq, Eq, PartialOrd, Ord)]
pub struct CommunityName(String);

impl Clone for CommunityName {
    fn clone(&self) -> (copy: Self)
        ensures
            copy == *self,
    {
        CommunityName(self.0.clone())
    }
}

impl CommunityName {
    pub closed spec fn text(&self) -> Seq<char> {
        self.0@
    }

    pub closed spec fn string(&self) -> String {
        self.0
    }

    /// The name, when it passes `validate_community_name`.
    pub fn try_new(community_name: &str) -> (result: Result<Self, Error>)
        ensures
            match community_name_verdict(community_name@) {
                Ok(_) => result matches Ok(name) && name.text() == community_name@,
                Err(error_value) => result == Err::<Self, Error>(
                    Error::Common(CommonError::Community(error_value)),
                ),
            },
    {
        let community_name = community_name.to_owned();
        match validate_community_name(community_name.as_str()) {
            Ok(()) => Ok(CommunityName(community_name)),
            Err(error_value) => Err(Error::Common(CommonError::Community(error_value))),
        }
    }

    pub fn as_str(&self) -> (community_name: &str)
        ensures
            community_name@ == self.text(),
    {
        self.0.as_str()
    }
}

/// A community record: its key and its name.
#[derive(Debug, PartialEq, Eq, PartialOrd, Ord)]
pub struct Community {
    id: CommunityID,
    community_name: CommunityName,
}

impl Clone for Community {
    fn clone(&self) -> (copy: Self)
        ensures
            copy == *self,
    {
        Community { id: self.id.clone(), community_name: self.community_name.clone() }
    }
}

impl Community {
    pub closed spec fn id(&self) -> CommunityID {
        self.id
    }

    pub closed spec fn community_name(&self) -> CommunityName {
        self.community_name
    }

    /// The record with the given key and name.
    pub closed spec fn made_of(id: CommunityID, community_name: CommunityName) -> Community {
        Community { id, community_name }
    }

    /// The record `made_of` a key and a name holds that key and that name.
    pub proof fn lemma_made_of(id: CommunityID, community_name: CommunityName)
        ensures
            Community::made_of(id, community_name).id() == id,
            Community::made_of(id, community_name).community_name() == community_name,
    {
    }

    /// The record with the given key and name.
    pub fn from_parts(id: CommunityID, community_name: CommunityName) -> (community: Community)
        ensures
            community == Community::made_of(id, community_name),
            community.id() == id,
            community.community_name() == community_name,
    {
        Community { id, community_name }
    }

    pub fn get_id(&self) -> (id: &CommunityID)
        ensures
            *id == self.id(),
    {
        &self.id
    }

    pub fn get_community_name(&self) -> (community_name: &CommunityName)
        ensures
            *community_name == self.community_name(),
    {
        &self.community_name
    }

    /// The same record under a new name, when the name passes `validate_community_name`.
    pub fn update_name(self, community_name: &str) -> (result: Result<Community, Error>)
        ensures
            match community_name_verdict(community_name@) {
                Ok(_) => result matches Ok(community) && community.id() == self.id()
                    && community.community_name().text() == community_name@,
                Err(error_value) => result == Err::<Community, Error>(
                    Error::Common(CommonError::Community(error_value)),
                ),
            },
    {
        let mut community = self;
        match CommunityName::try_new(community_name) {
            Ok(name) => {
                community.community_name = name;
                Ok(community)
            },
            Err(error_value) => Err(error_value),
        }
    }

    /// The record as the client sees it: the key and the name, moved over.
    pub closed spec fn shown(self) -> CommonCommunity {
        CommonCommunity::assembled(self.id.key, self.community_name.0)
    }

    /// What the client sees holds the key's text and the name.
    pub proof fn lemma_shown(self)
        ensures
            self.shown().community_id() == self.id().key(),
            self.shown().community_name() == self.community_name().text(),
    {
        CommonCommunity::lemma_assembled(self.id.key, self.community_name.0);
    }
}

impl From<Community> for CommonCommunity {
    fn from(value: Community) -> (shown: CommonCommunity) {
        CommonCommunity::from_parts(value.id.key, value.community_name.0)
    }
}

impl vstd::std_specs::convert::FromSpecImpl<Community> for CommonCommunity {
    open spec fn obeys_from_spec() -> bool {
        true
    }

    open spec fn from_spec(value: Community) -> CommonCommunity {
        value.shown()
    }
}

} // verus!
