//! Things that happen in a community, as told to its members.

use vstd::prelude::*;

use crate::community::Community;
use crate::message::Message;
use crate::user::User;

verus! {

#[derive(Debug, Clone)]
pub enum Event {
    MessageCreate(Message),
    MessageUpdate(Message),
    MessageDelete(Message),
    UserJoin(Community, User),
    UserLeave(Community, User),
    CommunityUpdate(Community),
    CommunityDelete(Community),
}

} // verus!
