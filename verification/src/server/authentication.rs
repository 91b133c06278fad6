//! Logging in: a token names a user.

use vstd::prelude::*;

use crate::error::Error as CommonError;
use crate::server::error::Error;
use crate::server::user::User;

verus! {

/// The user a login token names: the first of the users found under that name, or
/// `Authenticate` when there is none.
pub fn authenticated_user(users: Vec<User>) -> (result: Result<User, Error>)
    ensures
        users@.len() == 0 ==> result == Err::<User, Error>(Error::Common(CommonError::Authenticate)),
        users@.len() > 0 ==> result == Ok::<User, Error>(users@[0]),
{
    let mut users = users;
    if users.len() == 0 {
        Err(Error::Common(CommonError::Authenticate))
    } else {
        Ok(users.swap_remove(0))
    }
}

} // verus!
