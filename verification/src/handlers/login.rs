//! Login.

use crate::cookies::{both_added, generate_cookies};
use crate::hashing::verify_outcome;
use crate::jar::CookieJar;
use crate::response::{Rejection, Status};
use crate::storage::StorageError;
use crate::user::User;
use vstd::prelude::*;

verus! {

/// What a login sends.
#[derive(Clone, Debug, PartialEq, Eq)]
pub struct Body {
    pub username: String,
    pub password: String,
}

/// Whom a login lets in: the account that the store found under the
/// username, where the password is its own.
pub open spec fn login_of(found: Result<User, StorageError>, password: Seq<char>) -> Result<
    User,
    Rejection,
> {
    match found {
        Err(_) => Err(Rejection::InvalidCredentials),
        Ok(user) => match verify_outcome(password, user@.password) {
            Ok(true) => Ok(user),
            Ok(false) => Err(Rejection::InvalidCredentials),
            Err(_) => Err(Rejection::VerifyFailed),
        },
    }
}

/// Logs in, given what the store found under the username of `body`, and
/// hands out both cookies to whoever is let in.
pub fn login(found: Result<User, StorageError>, body: Body, jar: CookieJar, jwt_secret: &String) -> (r:
    Result<(Status, CookieJar), Rejection>)
    ensures
        match login_of(found, body.password@) {
            Err(rejection) => r == Err::<(Status, CookieJar), Rejection>(rejection),
            Ok(user) => match r {
                Ok((status, filled)) => status == Status::Success && both_added(
                    jar@,
                    filled@,
                    user@,
                    jwt_secret@,
                ),
                Err(_) => false,
            },
        },
{
    let user = match User::login(found, body.password) {
        Ok(user) => user,
        Err(e) => {
            return Err(e.rejection());
        },
    };
    match generate_cookies(&user, jar, jwt_secret) {
        Ok(filled) => Ok((Status::Success, filled)),
        Err(e) => Err(e),
    }
}

} // verus!
