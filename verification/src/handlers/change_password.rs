//! Change of password.

use crate::hashing::{encoded_prefix, hashed_from, verify_outcome, HashError};
use crate::response::{Rejection, Status};
use crate::storage::StorageError;
use crate::user::{UpdateError, User};
use crate::validation::{password_ok, valid_password};
use vstd::prelude::*;

verus! {

/// What a change of password sends.
#[derive(Clone, Debug, PartialEq, Eq)]
pub struct Body {
    pub old_password: String,
    pub new_password: String,
}

/// Whether a change of password may go on, by the verdicts on the old and
/// on the new password against the stored hash: the old one has to be the
/// account's, the new one must not be. A hash that cannot be read stops the
/// change only at the old password.
pub open spec fn allowed(old: Result<bool, HashError>, new: Result<bool, HashError>) -> Result<
    (),
    Rejection,
> {
    match old {
        Ok(true) => match new {
            Ok(true) => Err(Rejection::SamePassword),
            _ => Ok(()),
        },
        Ok(false) => Err(Rejection::WrongPassword),
        Err(_) => Err(Rejection::VerifyOldFailed),
    }
}

/// Decides from the two verdicts whether a change of password may go on.
pub fn check(old: Result<bool, HashError>, new: Result<bool, HashError>) -> (r: Result<(), Rejection>)
    ensures
        r == allowed(old, new),
{
    match old {
        Ok(true) => {},
        Ok(false) => {
            return Err(Rejection::WrongPassword);
        },
        Err(_) => {
            return Err(Rejection::VerifyOldFailed);
        },
    }
    match new {
        Ok(true) => Err(Rejection::SamePassword),
        _ => Ok(()),
    }
}

/// What a change that the account refuses is answered with.
pub open spec fn update_rejection_of(error: UpdateError) -> Rejection {
    match error {
        UpdateError::Invalid => Rejection::BadValue,
        UpdateError::Unchanged => Rejection::SameUsername,
        UpdateError::HashFailed => Rejection::UpdateFailed,
    }
}

/// Tells what a change that the account refuses is answered with.
pub fn update_rejection(error: UpdateError) -> (r: Rejection)
    ensures
        r == update_rejection_of(error),
{
    match error {
        UpdateError::Invalid => Rejection::BadValue,
        UpdateError::Unchanged => Rejection::SameUsername,
        UpdateError::HashFailed => Rejection::UpdateFailed,
    }
}

/// The first half of a change of password: confirms the old password,
/// refuses a new one that is the old one or has the wrong shape, and gives
/// the account as the store is to hold it: under the new hash, all its
/// tokens revoked. An account whose token version cannot go higher is not
/// changed.
pub fn change_password(user: &User, body: Body) -> (r: Result<User, Rejection>)
    ensures
        match allowed(
            verify_outcome(body.old_password@, user@.password),
            verify_outcome(body.new_password@, user@.password),
        ) {
            Err(rejection) => r == Err::<User, Rejection>(rejection),
            Ok(_) => if !password_ok(body.new_password@) {
                r == Err::<User, Rejection>(Rejection::BadValue)
            } else if user@.tokenversion == u64::MAX {
                r == Err::<User, Rejection>(Rejection::UpdateFailed)
            } else {
                match r {
                    Ok(next) => {
                        &&& next@ == user@.with_password(next@.password).bumped()
                        &&& hashed_from(next@.password, body.new_password@)
                        &&& verify_outcome(body.new_password@, next@.password) == Ok::<
                            bool,
                            HashError,
                        >(true)
                        &&& encoded_prefix().is_prefix_of(next@.password)
                    },
                    Err(_) => false,
                }
            },
        },
{
    let old = user.verify_password(body.old_password);
    let new = user.verify_password(body.new_password.clone());
    match check(old, new) {
        Ok(_) => {},
        Err(rejection) => {
            return Err(rejection);
        },
    }
    if user.tokenversion() == u64::MAX {
        if !valid_password(&body.new_password) {
            return Err(Rejection::BadValue);
        }
        return Err(Rejection::UpdateFailed);
    }
    match user.update_password(body.new_password) {
        Ok(next) => Ok(next),
        Err(e) => Err(update_rejection(e)),
    }
}

/// The second half of a change, on the store's answer.
pub fn after_update(updated: Result<(), StorageError>) -> (r: Result<Status, Rejection>)
    ensures
        r == match updated {
            Ok(_) => Ok::<Status, Rejection>(Status::Success),
            Err(_) => Err(Rejection::UpdateFailed),
        },
{
    match updated {
        Ok(_) => Ok(Status::Success),
        Err(_) => Err(Rejection::UpdateFailed),
    }
}

} // verus!
