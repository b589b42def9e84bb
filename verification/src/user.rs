//! The account record and what can be done with it.

use crate::access_token::{AccessToken, ACCESS_TTL_MINUTES};
use crate::claims::Claims;
use crate::clock::{unix_now, CLOCK_MAX};
use crate::hashing::{
    encoded_prefix, hash_password, hashed_from, verify_outcome, verify_password, HashError,
};
use crate::jwt::{carries, signed_text};
use crate::permission::Permission;
use crate::refresh_token::{RefreshToken, REFRESH_TTL_MINUTES};
use crate::response::Rejection;
use crate::storage::StorageError;
use crate::token::Token;
use crate::validation::{password_ok, username_ok, valid_password, valid_username};
use uuid::Uuid;
use vstd::prelude::*;

verus! {

/// Why a login fails.
#[derive(Clone, Copy, Debug, PartialEq, Eq, Structural)]
pub enum AuthError {
    /// No account has the username.
    NotFound,
    /// The password is not the account's.
    WrongPassword,
    /// The stored hash could not be read.
    HashFailure,
}

impl AuthError {
    /// What a failed login is answered with. An unknown username and a
    /// wrong password get the same answer, so that nobody learns which
    /// usernames exist.
    pub open spec fn rejection_of(self) -> Rejection {
        match self {
            AuthError::NotFound => Rejection::InvalidCredentials,
            AuthError::WrongPassword => Rejection::InvalidCredentials,
            AuthError::HashFailure => Rejection::VerifyFailed,
        }
    }

    /// What a failed login is answered with.
    pub fn rejection(&self) -> (r: Rejection)
        ensures
            r == self.rejection_of(),
    {
        match self {
            AuthError::NotFound => Rejection::InvalidCredentials,
            AuthError::WrongPassword => Rejection::InvalidCredentials,
            AuthError::HashFailure => Rejection::VerifyFailed,
        }
    }
}

/// Why a change to an account is not made.
#[derive(Clone, Copy, Debug, PartialEq, Eq, Structural)]
pub enum UpdateError {
    /// The new value has the wrong shape.
    Invalid,
    /// The new value is the old one.
    Unchanged,
    /// The new password could not be hashed.
    HashFailed,
}

/// The bits of an identifier that say how it was made.
pub const UUID_KIND_MASK: u128 = 0x0000_0000_0000_f000_c000_0000_0000_0000;

/// Those bits in an identifier drawn at random.
pub const UUID_RANDOM_KIND: u128 = 0x0000_0000_0000_4000_8000_0000_0000_0000;

/// `Uuid::new_v4` and `Uuid::as_u128`: an identifier drawn at random. All
/// of its bits are random but the six that mark it as random.
#[verifier::external_body]
fn fresh_uuid() -> (id: u128)
    ensures
        id & UUID_KIND_MASK == UUID_RANDOM_KIND,
{
    Uuid::new_v4().as_u128()
}

/// An account as contracts see it.
pub struct UserView {
    pub uuid: u128,
    pub username: Seq<char>,
    /// The encoded hash of the password.
    pub password: Seq<char>,
    pub email: Seq<char>,
    pub permission: Permission,
    pub tokenversion: u64,
    pub timestamp: u64,
}

impl UserView {
    /// The account one revocation later, all else the same.
    pub open spec fn bumped(self) -> UserView {
        UserView { tokenversion: (self.tokenversion + 1) as u64, ..self }
    }

    /// The account under another encoded hash.
    pub open spec fn with_password(self, password: Seq<char>) -> UserView {
        UserView { password, ..self }
    }

    /// The account under another username.
    pub open spec fn with_username(self, username: Seq<char>) -> UserView {
        UserView { username, ..self }
    }
}

/// An account. The identifier is given once; the username and the password
/// change only through the checked updates below; the token version only
/// grows.
#[derive(Clone, Debug, PartialEq, Eq)]
pub struct User {
    uuid: u128,
    username: String,
    password: String,
    email: String,
    permission: Permission,
    tokenversion: u64,
    timestamp: u64,
}

impl View for User {
    type V = UserView;

    closed spec fn view(&self) -> UserView {
        UserView {
            uuid: self.uuid,
            username: self.username@,
            password: self.password@,
            email: self.email@,
            permission: self.permission,
            tokenversion: self.tokenversion,
            timestamp: self.timestamp,
        }
    }
}

impl User {
    /// An account from the values of a stored row.
    pub fn from_parts(
        uuid: u128,
        username: String,
        password: String,
        email: String,
        permission: Permission,
        tokenversion: u64,
        timestamp: u64,
    ) -> (user: Self)
        ensures
            user@ == (UserView {
                uuid,
                username: username@,
                password: password@,
                email: email@,
                permission,
                tokenversion,
                timestamp,
            }),
    {
        Self { uuid, username, password, email, permission, tokenversion, timestamp }
    }

    /// The identifier, given once and never changed.
    pub fn uuid(&self) -> (uuid: u128)
        ensures
            uuid == self@.uuid,
    {
        self.uuid
    }

    pub fn username(&self) -> (username: &String)
        ensures
            username@ == self@.username,
    {
        &self.username
    }

    /// The encoded hash of the account's password, for the store.
    pub fn password_hash(&self) -> (hash: &String)
        ensures
            hash@ == self@.password,
    {
        &self.password
    }

    pub fn email(&self) -> (email: &String)
        ensures
            email@ == self@.email,
    {
        &self.email
    }

    pub fn permission(&self) -> (permission: Permission)
        ensures
            permission == self@.permission,
    {
        self.permission
    }

    /// How often the account's tokens have been revoked. A token is honoured
    /// only if it was issued under the current version.
    pub fn tokenversion(&self) -> (tokenversion: u64)
        ensures
            tokenversion == self@.tokenversion,
    {
        self.tokenversion
    }

    /// When the account was made, in seconds since the epoch.
    pub fn timestamp(&self) -> (timestamp: u64)
        ensures
            timestamp == self@.timestamp,
    {
        self.timestamp
    }

    /// A new account: a fresh identifier, the lowest permission, no
    /// revocation yet, made now. `password` is the encoded hash. Nothing is
    /// stored.
    pub fn new(username: String, password: String, email: String) -> (user: Self)
        ensures
            user@.uuid & UUID_KIND_MASK == UUID_RANDOM_KIND,
            user@.timestamp <= CLOCK_MAX,
            user@ == (UserView {
                uuid: user@.uuid,
                username: username@,
                password: password@,
                email: email@,
                permission: Permission::USER,
                tokenversion: 0,
                timestamp: user@.timestamp,
            }),
    {
        Self {
            uuid: fresh_uuid(),
            username,
            password,
            email,
            permission: Permission::USER,
            tokenversion: 0,
            timestamp: unix_now(),
        }
    }

    /// What an access token and the answer of the store make of a request at
    /// `now`: the account, or nothing where the claims do not hold at `now`
    /// or were issued under another token version. A failure of the store
    /// counts only for claims that hold.
    pub open spec fn admitted_at(
        claims: Claims,
        found: Result<User, StorageError>,
        now: u64,
    ) -> Result<Option<User>, StorageError> {
        if !claims.holds_at(now) {
            Ok(None)
        } else {
            match found {
                Err(e) => Err(e),
                Ok(user) => if claims.tokenversion != user@.tokenversion {
                    Ok(None)
                } else {
                    Ok(Some(user))
                },
            }
        }
    }

    /// The account that an access token stands for at `now`, given what the
    /// store found under the token's subject.
    pub fn from_access_token_at(
        token: AccessToken,
        found: Result<User, StorageError>,
        now: u64,
    ) -> (r: Result<Option<Self>, StorageError>)
        ensures
            r == Self::admitted_at(token.claims, found, now),
    {
        let claims = token.claims;
        if !claims.valid_dates_at(now) {
            return Ok(None);
        }
        let user = match found {
            Ok(user) => user,
            Err(e) => {
                return Err(e);
            },
        };
        if claims.tokenversion != user.tokenversion {
            return Ok(None);
        }
        Ok(Some(user))
    }

    /// The account that an access token stands for now, given what the store
    /// found under the token's subject.
    pub fn from_access_token(token: AccessToken, found: Result<User, StorageError>) -> (r: Result<
        Option<Self>,
        StorageError,
    >)
        ensures
            exists|now: u64|
                now <= CLOCK_MAX && r == #[trigger] Self::admitted_at(token.claims, found, now),
    {
        let now = unix_now();
        let ghost claims = token.claims;
        let r = Self::from_access_token_at(token, found, now);
        assert(r == Self::admitted_at(claims, found, now));
        r
    }

    /// An access token for the account, good for twenty minutes from now.
    /// There always is one: the claims of the account, made at the reading
    /// of the clock that they hold, and their signed text.
    pub fn generate_access_token(&self, jwt_secret: &String) -> (r: Option<AccessToken>)
        ensures
            match r {
                Some(token) => {
                    &&& token.claims.iat <= CLOCK_MAX
                    &&& token.claims == Claims::made_at(
                        self@.uuid,
                        self@.tokenversion,
                        ACCESS_TTL_MINUTES,
                        token.claims.iat,
                    )
                    &&& token.token@ == signed_text(token.claims, jwt_secret@)
                    &&& carries(token.token@, jwt_secret@, token.claims)
                },
                None => false,
            },
    {
        let claims = Claims::from_user(self, ACCESS_TTL_MINUTES);
        match AccessToken::from_claims(claims, jwt_secret) {
            Ok(token) => Some(token),
            _ => None,
        }
    }

    /// A refresh token for the account, good for a year from now.
    /// There always is one: the claims of the account, made at the reading
    /// of the clock that they hold, and their signed text.
    pub fn generate_refresh_token(&self, jwt_secret: &String) -> (r: Option<RefreshToken>)
        ensures
            match r {
                Some(token) => {
                    &&& token.claims.iat <= CLOCK_MAX
                    &&& token.claims == Claims::made_at(
                        self@.uuid,
                        self@.tokenversion,
                        REFRESH_TTL_MINUTES,
                        token.claims.iat,
                    )
                    &&& token.token@ == signed_text(token.claims, jwt_secret@)
                    &&& carries(token.token@, jwt_secret@, token.claims)
                },
                None => false,
            },
    {
        let claims = Claims::from_user(self, REFRESH_TTL_MINUTES);
        match RefreshToken::from_claims(claims, jwt_secret) {
            Ok(token) => Some(token),
            _ => None,
        }
    }

    /// Checks `attempt` against the account's password.
    pub fn verify_password(&self, attempt: String) -> (r: Result<bool, HashError>)
        ensures
            r == verify_outcome(attempt@, self@.password),
    {
        verify_password(&attempt, &self.password)
    }

    /// What a login comes to once the account is found and the password
    /// checked.
    pub open spec fn login_result(user: User, verdict: Result<bool, HashError>) -> Result<
        User,
        AuthError,
    > {
        match verdict {
            Ok(true) => Ok(user),
            Ok(false) => Err(AuthError::WrongPassword),
            Err(_) => Err(AuthError::HashFailure),
        }
    }

    /// Decides a login from the verdict on the password.
    pub fn login_outcome(user: User, verdict: Result<bool, HashError>) -> (r: Result<User, AuthError>)
        ensures
            r == Self::login_result(user, verdict),
    {
        match verdict {
            Ok(true) => Ok(user),
            Ok(false) => Err(AuthError::WrongPassword),
            Err(_) => Err(AuthError::HashFailure),
        }
    }

    /// Logs in with a password, given what the store found under the
    /// username.
    pub fn login(found: Result<User, StorageError>, password: String) -> (r: Result<User, AuthError>)
        ensures
            r == match found {
                Err(_) => Err::<User, AuthError>(AuthError::NotFound),
                Ok(user) => Self::login_result(user, verify_outcome(password@, user@.password)),
            },
    {
        let user = match found {
            Ok(user) => user,
            Err(_) => {
                return Err(AuthError::NotFound);
            },
        };
        let verdict = user.verify_password(password);
        Self::login_outcome(user, verdict)
    }

    /// The account with a new password, all its tokens revoked: every
    /// password of the right shape gets its hash, under a fresh salt. The
    /// store takes the new hash and raises the token version by one in a
    /// single step.
    pub fn update_password(&self, new_password_string: String) -> (r: Result<Self, UpdateError>)
        requires
            self@.tokenversion < u64::MAX,
        ensures
            !password_ok(new_password_string@) ==> r == Err::<User, UpdateError>(UpdateError::Invalid),
            password_ok(new_password_string@) ==> match r {
                Ok(next) => {
                    &&& next@ == self@.with_password(next@.password).bumped()
                    &&& hashed_from(next@.password, new_password_string@)
                    &&& verify_outcome(new_password_string@, next@.password) == Ok::<
                        bool,
                        HashError,
                    >(true)
                    &&& encoded_prefix().is_prefix_of(next@.password)
                },
                Err(_) => false,
            },
    {
        if !valid_password(&new_password_string) {
            return Err(UpdateError::Invalid);
        }
        let hashed_password = match hash_password(&new_password_string) {
            Ok(hash) => hash,
            Err(_) => {
                return Err(UpdateError::HashFailed);
            },
        };
        let rehashed = Self {
            uuid: self.uuid,
            username: self.username.clone(),
            password: hashed_password,
            email: self.email.clone(),
            permission: self.permission,
            tokenversion: self.tokenversion,
            timestamp: self.timestamp,
        };
        Ok(rehashed.update_tokenversion())
    }

    /// What a change of username comes to.
    pub open spec fn renamed(&self, username: Seq<char>, r: Result<User, UpdateError>) -> bool {
        if !username_ok(username) {
            r == Err::<User, UpdateError>(UpdateError::Invalid)
        } else if username == self@.username {
            r == Err::<User, UpdateError>(UpdateError::Unchanged)
        } else {
            r matches Ok(next) && next@ == self@.with_username(username)
        }
    }

    /// The account under a new username. Its tokens stay good: they name the
    /// account by its identifier.
    pub fn update_username(&self, username: String) -> (r: Result<Self, UpdateError>)
        ensures
            self.renamed(username@, r),
    {
        if !valid_username(&username) {
            return Err(UpdateError::Invalid);
        }
        if username == self.username {
            return Err(UpdateError::Unchanged);
        }
        Ok(
            Self {
                uuid: self.uuid,
                username,
                password: self.password.clone(),
                email: self.email.clone(),
                permission: self.permission,
                tokenversion: self.tokenversion,
                timestamp: self.timestamp,
            },
        )
    }

    /// The account one revocation later: every token issued before is now
    /// refused.
    pub fn update_tokenversion(&self) -> (next: Self)
        requires
            self@.tokenversion < u64::MAX,
        ensures
            next@ == self@.bumped(),
    {
        Self {
            uuid: self.uuid,
            username: self.username.clone(),
            password: self.password.clone(),
            email: self.email.clone(),
            permission: self.permission,
            tokenversion: self.tokenversion + 1,
            timestamp: self.timestamp,
        }
    }
}

/// Whether the account at `i + 1` in `run` is the one at `i` one revocation
/// later.
pub open spec fn bump_step(run: Seq<UserView>, i: int) -> bool {
    run[i + 1] == run[i].bumped()
}

/// Revocations add up: along any run of accounts in which each is the one
/// before it one revocation later, the last stands at the token version of
/// the first plus the number of steps, and is the same account otherwise.
pub proof fn lemma_bumps_add_up(run: Seq<UserView>)
    requires
        run.len() > 0,
        run[0].tokenversion + (run.len() - 1) <= u64::MAX,
        forall|i: int| 0 <= i < run.len() - 1 ==> #[trigger] bump_step(run, i),
    ensures
        run.last().tokenversion == run[0].tokenversion + (run.len() - 1),
        run.last() == (UserView { tokenversion: run.last().tokenversion, ..run[0] }),
    decreases run.len(),
{
    if run.len() > 1 {
        let shorter = run.drop_last();
        assert(bump_step(run, run.len() - 2));
        assert forall|i: int| 0 <= i < shorter.len() - 1 implies #[trigger] bump_step(
            shorter,
            i,
        ) by {
            assert(bump_step(run, i));
        }
        lemma_bumps_add_up(shorter);
    }
}

} // verus!
