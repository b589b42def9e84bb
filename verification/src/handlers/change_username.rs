//! Change of username.

use crate::handlers::change_password::update_rejection;
use crate::response::Rejection;
use crate::user::User;
use crate::validation::username_ok;
use vstd::prelude::*;

verus! {

/// What a change of username sends.
#[derive(Clone, Debug, PartialEq, Eq)]
pub struct Body {
    pub username: String,
}

/// The first half of a change of username: refuses the name that the
/// account has already and one of the wrong shape, and gives the account as
/// the store is to hold it. Its tokens stay good, so none is made. The
/// second half is that of a change of password.
pub fn change_username(user: &User, body: Body) -> (r: Result<User, Rejection>)
    ensures
        if body.username@ == user@.username {
            r == Err::<User, Rejection>(Rejection::SameUsername)
        } else if !username_ok(body.username@) {
            r == Err::<User, Rejection>(Rejection::BadValue)
        } else {
            r matches Ok(next) && next@ == user@.with_username(body.username@)
        },
{
    if *user.username() == body.username {
        return Err(Rejection::SameUsername);
    }
    match user.update_username(body.username) {
        Ok(next) => Ok(next),
        Err(e) => Err(update_rejection(e)),
    }
}

} // verus!
