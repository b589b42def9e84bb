//! Registration.

use crate::clock::CLOCK_MAX;
use crate::cookies::{both_added, generate_cookies};
use crate::hashing::{
    encoded_prefix, hash_password, hashed_from, lemma_password_is_no_hash, verify_outcome, HashError,
};
use crate::jar::CookieJar;
use crate::permission::Permission;
use crate::response::{Rejection, Status};
use crate::storage::{Conflict, StorageError};
use crate::user::{User, UserView, UUID_KIND_MASK, UUID_RANDOM_KIND};
use crate::validation::{password_ok, username_ok, valid_password, valid_username};
use vstd::prelude::*;

verus! {

/// What a registration sends.
#[derive(Clone, Debug, PartialEq, Eq)]
pub struct Body {
    pub username: String,
    pub password: String,
    pub email: String,
}

/// What a refused insert is answered with: the column that is taken, where
/// the store names one.
pub open spec fn insert_rejection_of(error: StorageError) -> Rejection {
    match error.conflict_of() {
        Conflict::Email => Rejection::EmailTaken,
        Conflict::Username => Rejection::UsernameTaken,
        Conflict::Other => Rejection::WriteFailed,
    }
}

/// Tells what a refused insert is answered with.
pub fn insert_rejection(error: &StorageError) -> (r: Rejection)
    ensures
        r == insert_rejection_of(*error),
{
    match error.conflict() {
        Conflict::Email => Rejection::EmailTaken,
        Conflict::Username => Rejection::UsernameTaken,
        Conflict::Other => Rejection::WriteFailed,
    }
}

/// The first half of a registration: checks the username and then the
/// password, hashes the password and makes the account. A body of the right
/// shape always gets its account. Nothing is stored yet.
pub fn create_new_user(body: Body) -> (r: Result<User, Rejection>)
    ensures
        !username_ok(body.username@) ==> r == Err::<User, Rejection>(Rejection::BadUsername),
        username_ok(body.username@) && !password_ok(body.password@) ==> r == Err::<User, Rejection>(
            Rejection::BadPassword,
        ),
        username_ok(body.username@) && password_ok(body.password@) ==> match r {
            Ok(user) => {
                &&& user@ == (UserView {
                    uuid: user@.uuid,
                    username: body.username@,
                    password: user@.password,
                    email: body.email@,
                    permission: Permission::USER,
                    tokenversion: 0,
                    timestamp: user@.timestamp,
                })
                &&& user@.uuid & UUID_KIND_MASK == UUID_RANDOM_KIND
                &&& user@.timestamp <= CLOCK_MAX
                &&& hashed_from(user@.password, body.password@)
                &&& verify_outcome(body.password@, user@.password) == Ok::<bool, HashError>(true)
                &&& encoded_prefix().is_prefix_of(user@.password)
                &&& user@.password != body.password@
            },
            Err(_) => false,
        },
{
    if !valid_username(&body.username) {
        return Err(Rejection::BadUsername);
    }
    if !valid_password(&body.password) {
        return Err(Rejection::BadPassword);
    }
    let hashed_password = match hash_password(&body.password) {
        Ok(hash) => hash,
        Err(_) => {
            return Err(Rejection::HashFailed);
        },
    };
    proof {
        lemma_password_is_no_hash(body.password@);
    }
    Ok(User::new(body.username, hashed_password, body.email))
}

/// The second half of a registration, on the store's answer to the insert:
/// a refusal is answered by its cause, a success with both cookies.
pub fn after_insert(
    user: &User,
    stored: Result<(), StorageError>,
    jar: CookieJar,
    jwt_secret: &String,
) -> (r: Result<(Status, CookieJar), Rejection>)
    ensures
        match stored {
            Err(error) => r == Err::<(Status, CookieJar), Rejection>(insert_rejection_of(error)),
            Ok(_) => match r {
                Ok((status, filled)) => status == Status::Created && both_added(
                    jar@,
                    filled@,
                    user@,
                    jwt_secret@,
                ),
                Err(_) => false,
            },
        },
{
    match stored {
        Err(error) => Err(insert_rejection(&error)),
        Ok(_) => match generate_cookies(user, jar, jwt_secret) {
            Ok(filled) => Ok((Status::Created, filled)),
            Err(e) => Err(e),
        },
    }
}

} // verus!
