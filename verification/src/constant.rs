use vstd::prelude::*;

verus! {

/// Shortest accepted user name, in bytes.
pub const MINIMUM_USERNAME_LENGTH: usize = 1;

/// Longest accepted user name, in bytes.
pub const MAXIMUM_USERNAME_LENGTH: usize = 32;

/// Shortest accepted community name, in bytes.
pub const MINIMUM_COMMUNITY_NAME_LENGTH: usize = 1;

/// Longest accepted community name, in bytes.
pub const MAXIMUM_COMMUNITY_NAME_LENGTH: usize = 32;

/// Shortest accepted message body, in bytes.
pub const MINIMUM_MESSAGE_LENGTH: usize = 1;

/// Longest accepted message body, in bytes.
pub const MAXIMUM_MESSAGE_LENGTH: usize = 1024;

} // verus!
