//! A new refresh token, for a username and its password.

use crate::cookies::one_added;
use crate::handlers::login::login_of;
use crate::jar::CookieJar;
use crate::refresh_token::{refresh_cookie, REFRESH_TTL_MINUTES};
use crate::response::{Rejection, Status};
use crate::storage::StorageError;
use crate::user::User;
use vstd::prelude::*;

verus! {

/// What a request for a new refresh token sends.
#[derive(Clone, Debug, PartialEq, Eq)]
pub struct Body {
    pub username: String,
    pub password: String,
}

/// Logs in, given what the store found under the username of `body`, makes
/// a new refresh token for the account and adds its cookie to the jar.
/// Whoever is let in gets the token.
pub fn refresh_refresh_token(
    found: Result<User, StorageError>,
    body: Body,
    jar: CookieJar,
    jwt_secret: &String,
) -> (r: Result<(Status, CookieJar), Rejection>)
    ensures
        match login_of(found, body.password@) {
            Err(rejection) => r == Err::<(Status, CookieJar), Rejection>(rejection),
            Ok(user) => match r {
                Ok((status, filled)) => status == Status::Success && one_added(
                    jar@,
                    filled@,
                    refresh_cookie(),
                    REFRESH_TTL_MINUTES,
                    user@,
                    jwt_secret@,
                ),
                Err(_) => false,
            },
        },
{
    let user = match User::login(found, body.password) {
        Ok(user) => user,
        Err(e) => {
            return Err(e.rejection());
        },
    };
    let token = match user.generate_refresh_token(jwt_secret) {
        None => {
            return Err(Rejection::RefreshTokenFailed);
        },
        Some(token) => token,
    };
    let ghost before = jar@;
    let filled = token.generate_cookie(jar);
    proof {
        assert(filled@.take(before.len() as int) =~= before);
    }
    Ok((Status::Success, filled))
}

} // verus!
