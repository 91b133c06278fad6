//! A community as the client sees it.

use vstd::prelude::*;

verus! {

/// A community: its identifier and its name.
#[derive(Debug)]
pub struct Community {
    community_id: String,
    community_name: String,
}

impl Clone for Community {
    fn clone(&self) -> (copy: Self)
        ensures
            copy == *self,
    {
        Community { community_id: self.community_id.clone(), community_name: self.community_name.clone() }
    }
}

impl Community {
    pub closed spec fn community_id(&self) -> Seq<char> {
        self.community_id@
    }

    pub closed spec fn community_name(&self) -> Seq<char> {
        self.community_name@
    }

    /// The value made of the given strings, moved in as they are.
    pub closed spec fn assembled(community_id: String, community_name: String) -> Community {
        Community { community_id, community_name }
    }

    /// Builds the value from owned strings, moving them in.
    pub fn from_parts(community_id: String, community_name: String) -> (built: Community)
        ensures
            built == Community::assembled(community_id, community_name),
            built.community_id() == community_id@,
            built.community_name() == community_name@,
    {
        Community { community_id, community_name }
    }

    /// What `assembled` gives holds the strings it was given.
    pub proof fn lemma_assembled(community_id: String, community_name: String)
        ensures
            Community::assembled(community_id, community_name).community_id() == community_id@,
            Community::assembled(community_id, community_name).community_name() == community_name@,
    {
    }

    pub fn new(community_id: &str, community_name: &str) -> (built: Self)
        ensures
            built.community_id() == community_id@,
            built.community_name() == community_name@,
    {
        Self { community_id: community_id.to_owned(), community_name: community_name.to_owned() }
    }

    pub fn get_community_id(&self) -> (community_id: &str)
        ensures
            community_id@ == self.community_id(),
    {
        self.community_id.as_str()
    }

    pub fn get_community_name(&self) -> (community_name: &str)
        ensures
            community_name@ == self.community_name(),
    {
        self.community_name.as_str()
    }
}

} // verus!
