//! What a request is answered with.

use vstd::prelude::*;

verus! {

/// The status of an answer.
#[derive(Clone, Copy, Debug, PartialEq, Eq, Structural)]
pub enum Status {
    Success,
    Created,
    BadRequest,
    Unauthorized,
    InternalServerError,
}

impl Status {
    /// The number that goes on the wire.
    pub open spec fn code_of(self) -> u16 {
        match self {
            Status::Success => 200,
            Status::Created => 201,
            Status::BadRequest => 400,
            Status::Unauthorized => 401,
            Status::InternalServerError => 500,
        }
    }

    /// The number that goes on the wire.
    pub fn code(&self) -> (code: u16)
        ensures
            code == self.code_of(),
    {
        match self {
            Status::Success => 200,
            Status::Created => 201,
            Status::BadRequest => 400,
            Status::Unauthorized => 401,
            Status::InternalServerError => 500,
        }
    }
}

/// Every way in which a handler turns a request down.
#[derive(Clone, Copy, Debug, PartialEq, Eq, Structural)]
pub enum Rejection {
    /// The username of a registration has the wrong shape.
    BadUsername,
    /// The password of a registration has the wrong shape.
    BadPassword,
    /// The password of a registration could not be hashed.
    HashFailed,
    /// Another account has the email.
    EmailTaken,
    /// Another account has the username.
    UsernameTaken,
    /// The store did not take the new account.
    WriteFailed,
    /// No such account, or not its password: the two are not told apart.
    InvalidCredentials,
    /// The stored hash could not be read.
    VerifyFailed,
    /// The password that confirms a change or a removal is wrong.
    WrongPassword,
    /// The stored hash could not be read while confirming a change of
    /// password.
    VerifyOldFailed,
    /// The new password is the old one.
    SamePassword,
    /// The new username is the old one.
    SameUsername,
    /// The new value has the wrong shape.
    BadValue,
    /// The change could not be made.
    UpdateFailed,
    /// The store did not remove the account.
    DeleteFailed,
    /// No access token could be signed for the cookies.
    AccessCookieFailed,
    /// No refresh token could be signed for the cookies.
    RefreshCookieFailed,
    /// No new access token could be signed.
    AccessTokenFailed,
    /// No new refresh token could be signed.
    RefreshTokenFailed,
}

impl Rejection {
    pub open spec fn status_of(self) -> Status {
        match self {
            Rejection::BadUsername => Status::BadRequest,
            Rejection::BadPassword => Status::BadRequest,
            Rejection::HashFailed => Status::InternalServerError,
            Rejection::EmailTaken => Status::BadRequest,
            Rejection::UsernameTaken => Status::BadRequest,
            Rejection::WriteFailed => Status::InternalServerError,
            Rejection::InvalidCredentials => Status::BadRequest,
            Rejection::VerifyFailed => Status::InternalServerError,
            Rejection::WrongPassword => Status::Unauthorized,
            Rejection::VerifyOldFailed => Status::InternalServerError,
            Rejection::SamePassword => Status::BadRequest,
            Rejection::SameUsername => Status::BadRequest,
            Rejection::BadValue => Status::BadRequest,
            Rejection::UpdateFailed => Status::InternalServerError,
            Rejection::DeleteFailed => Status::InternalServerError,
            Rejection::AccessCookieFailed => Status::InternalServerError,
            Rejection::RefreshCookieFailed => Status::InternalServerError,
            Rejection::AccessTokenFailed => Status::InternalServerError,
            Rejection::RefreshTokenFailed => Status::InternalServerError,
        }
    }

    pub open spec fn message_of(self) -> Seq<char> {
        match self {
            Rejection::BadUsername => "Bad username (do specific checks on frontend)"@,
            Rejection::BadPassword => "Bad password (do specific checks on frontend)"@,
            Rejection::HashFailed => "Failed to hash password"@,
            Rejection::EmailTaken => "Email is already in use"@,
            Rejection::UsernameTaken => "Username is already taken"@,
            Rejection::WriteFailed => "Failed to write to db"@,
            Rejection::InvalidCredentials => "Wrong username or password"@,
            Rejection::VerifyFailed => "Failed to verify password"@,
            Rejection::WrongPassword => "Wrong password"@,
            Rejection::VerifyOldFailed => "Failed to verify old password"@,
            Rejection::SamePassword => "new password cannot be the same as old"@,
            Rejection::SameUsername => "new username cannot be the same as old"@,
            Rejection::BadValue => "Bad password"@,
            Rejection::UpdateFailed => "Failed to update password"@,
            Rejection::DeleteFailed => "Failed to delete from db"@,
            Rejection::AccessCookieFailed => "Failed to generate access token please log in manually"@,
            Rejection::RefreshCookieFailed => "Failed to generate refresh token please log in manually"@,
            Rejection::AccessTokenFailed => "Failed to generate new token"@,
            Rejection::RefreshTokenFailed => "Failed to generate refresh token"@,
        }
    }

    /// The status that the rejection is answered with.
    pub fn status(&self) -> (status: Status)
        ensures
            status == self.status_of(),
    {
        match self {
            Rejection::BadUsername => Status::BadRequest,
            Rejection::BadPassword => Status::BadRequest,
            Rejection::HashFailed => Status::InternalServerError,
            Rejection::EmailTaken => Status::BadRequest,
            Rejection::UsernameTaken => Status::BadRequest,
            Rejection::WriteFailed => Status::InternalServerError,
            Rejection::InvalidCredentials => Status::BadRequest,
            Rejection::VerifyFailed => Status::InternalServerError,
            Rejection::WrongPassword => Status::Unauthorized,
            Rejection::VerifyOldFailed => Status::InternalServerError,
            Rejection::SamePassword => Status::BadRequest,
            Rejection::SameUsername => Status::BadRequest,
            Rejection::BadValue => Status::BadRequest,
            Rejection::UpdateFailed => Status::InternalServerError,
            Rejection::DeleteFailed => Status::InternalServerError,
            Rejection::AccessCookieFailed => Status::InternalServerError,
            Rejection::RefreshCookieFailed => Status::InternalServerError,
            Rejection::AccessTokenFailed => Status::InternalServerError,
            Rejection::RefreshTokenFailed => Status::InternalServerError,
        }
    }

    /// The text that the rejection is answered with.
    pub fn message(&self) -> (message: &'static str)
        ensures
            message@ == self.message_of(),
    {
        match self {
            Rejection::BadUsername => "Bad username (do specific checks on frontend)",
            Rejection::BadPassword => "Bad password (do specific checks on frontend)",
            Rejection::HashFailed => "Failed to hash password",
            Rejection::EmailTaken => "Email is already in use",
            Rejection::UsernameTaken => "Username is already taken",
            Rejection::WriteFailed => "Failed to write to db",
            Rejection::InvalidCredentials => "Wrong username or password",
            Rejection::VerifyFailed => "Failed to verify password",
            Rejection::WrongPassword => "Wrong password",
            Rejection::VerifyOldFailed => "Failed to verify old password",
            Rejection::SamePassword => "new password cannot be the same as old",
            Rejection::SameUsername => "new username cannot be the same as old",
            Rejection::BadValue => "Bad password",
            Rejection::UpdateFailed => "Failed to update password",
            Rejection::DeleteFailed => "Failed to delete from db",
            Rejection::AccessCookieFailed => "Failed to generate access token please log in manually",
            Rejection::RefreshCookieFailed => "Failed to generate refresh token please log in manually",
            Rejection::AccessTokenFailed => "Failed to generate new token",
            Rejection::RefreshTokenFailed => "Failed to generate refresh token",
        }
    }
}

} // verus!
