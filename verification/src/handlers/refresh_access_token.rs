//! A new access token for an account behind the refresh gate.

use crate::access_token::{access_cookie, ACCESS_TTL_MINUTES};
use crate::cookies::one_added;
use crate::jar::CookieJar;
use crate::middleware::AuthUser;
use crate::response::{Rejection, Status};
use vstd::prelude::*;

verus! {

/// Makes a new access token for the account, at the reading of the clock,
/// and adds its cookie to the jar. The token is always made.
pub fn refresh_access_token(auth_user: &AuthUser, jar: CookieJar, jwt_secret: &String) -> (r: Result<
    (Status, CookieJar),
    Rejection,
>)
    ensures
        match r {
            Ok((status, filled)) => status == Status::Success && one_added(
                jar@,
                filled@,
                access_cookie(),
                ACCESS_TTL_MINUTES,
                auth_user.0@,
                jwt_secret@,
            ),
            Err(_) => false,
        },
{
    let token = match auth_user.0.generate_access_token(jwt_secret) {
        None => {
            return Err(Rejection::AccessTokenFailed);
        },
        Some(token) => token,
    };
    let ghost before = jar@;
    let filled = token.generate_cookie(jar);
    proof {
        assert(filled@.take(before.len() as int) =~= before);
    }
    Ok((Status::Success, filled))
}

} // verus!
