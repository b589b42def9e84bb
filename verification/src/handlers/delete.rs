//! Removal of an account.

use crate::hashing::{verify_outcome, HashError};
use crate::response::{Rejection, Status};
use crate::storage::StorageError;
use crate::user::User;
use vstd::prelude::*;

verus! {

/// What a removal sends: the password, to confirm.
#[derive(Clone, Debug, PartialEq, Eq)]
pub struct Body {
    pub password: String,
}

/// Whether a removal goes ahead, by the verdict on the password that
/// confirms it.
pub open spec fn confirmed(verdict: Result<bool, HashError>) -> Result<(), Rejection> {
    match verdict {
        Ok(true) => Ok(()),
        Ok(false) => Err(Rejection::WrongPassword),
        Err(_) => Err(Rejection::VerifyFailed),
    }
}

/// Decides a removal from the verdict on the password.
pub fn confirm(verdict: Result<bool, HashError>) -> (r: Result<(), Rejection>)
    ensures
        r == confirmed(verdict),
{
    match verdict {
        Ok(true) => Ok(()),
        Ok(false) => Err(Rejection::WrongPassword),
        Err(_) => Err(Rejection::VerifyFailed),
    }
}

/// The first half of a removal: the account is removed only for its own
/// password.
pub fn delete_user(user: &User, body: Body) -> (r: Result<(), Rejection>)
    ensures
        r == confirmed(verify_outcome(body.password@, user@.password)),
{
    confirm(user.verify_password(body.password))
}

/// The second half of a removal, on the store's answer.
pub fn after_delete(removed: Result<(), StorageError>) -> (r: Result<Status, Rejection>)
    ensures
        r == match removed {
            Ok(_) => Ok::<Status, Rejection>(Status::Success),
            Err(_) => Err(Rejection::DeleteFailed),
        },
{
    match removed {
        Ok(_) => Ok(Status::Success),
        Err(_) => Err(Rejection::DeleteFailed),
    }
}

} // verus!
