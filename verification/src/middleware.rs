//! The two gates in front of the protected routes. A gate reads the token
//! that the request presents, then asks for the account that the token
//! names, then decides.

use crate::access_token::{access_cookie, AccessToken};
use crate::claims::Claims;
use crate::clock::{unix_now, CLOCK_MAX};
use crate::jar::{value_of, CookieJar};
use crate::refresh_token::{refresh_cookie, RefreshToken};
use crate::response::Status;
use crate::storage::StorageError;
use crate::token::claims_presented;
use crate::user::User;
use vstd::prelude::*;

verus! {

/// The account that a gate has let through.
#[derive(Clone, Debug, PartialEq, Eq)]
pub struct AuthUser(pub User);

/// Why a gate turns a request away.
#[derive(Clone, Copy, Debug, PartialEq, Eq, Structural)]
pub enum Denial {
    /// The request presents no token that can be read.
    NoToken,
    /// The token's claims do not hold at this hour.
    Expired,
    /// The store has no account for the token.
    UnknownUser,
    /// The store failed.
    LookupFault,
    /// The account's tokens were revoked after this one was issued.
    VersionMismatch,
}

impl Denial {
    pub open spec fn status_of(self) -> Status {
        match self {
            Denial::NoToken => Status::Unauthorized,
            Denial::Expired => Status::Unauthorized,
            Denial::UnknownUser => Status::BadRequest,
            Denial::LookupFault => Status::InternalServerError,
            Denial::VersionMismatch => Status::Unauthorized,
        }
    }

    /// The status that the request is answered with.
    pub fn status(&self) -> (status: Status)
        ensures
            status == self.status_of(),
    {
        match self {
            Denial::NoToken => Status::Unauthorized,
            Denial::Expired => Status::Unauthorized,
            Denial::UnknownUser => Status::BadRequest,
            Denial::LookupFault => Status::InternalServerError,
            Denial::VersionMismatch => Status::Unauthorized,
        }
    }
}

/// The first half of a gate: a request goes on to the store only with
/// claims that were read from a token and hold at `now`.
pub open spec fn screened(presented: Option<Claims>, now: u64) -> Result<Claims, Denial> {
    match presented {
        None => Err(Denial::NoToken),
        Some(claims) => if claims.holds_at(now) {
            Ok(claims)
        } else {
            Err(Denial::Expired)
        },
    }
}

/// The second half of the access gate: any failure of the store turns the
/// request away as a bad one; an account is let through under the token
/// version of the claims alone.
pub open spec fn access_admission(claims: Claims, found: Result<User, StorageError>) -> Result<
    AuthUser,
    Denial,
> {
    match found {
        Err(_) => Err(Denial::UnknownUser),
        Ok(user) => if user@.tokenversion == claims.tokenversion {
            Ok(AuthUser(user))
        } else {
            Err(Denial::VersionMismatch)
        },
    }
}

/// The second half of the refresh gate: a store without the account turns
/// the request away as a bad one, be it that no row answers or that the
/// database refuses the identifier; any other failure is a fault of the
/// store.
pub open spec fn refresh_admission(claims: Claims, found: Result<User, StorageError>) -> Result<
    AuthUser,
    Denial,
> {
    match found {
        Err(e) => if e.means_no_account() {
            Err(Denial::UnknownUser)
        } else {
            Err(Denial::LookupFault)
        },
        Ok(user) => if user@.tokenversion == claims.tokenversion {
            Ok(AuthUser(user))
        } else {
            Err(Denial::VersionMismatch)
        },
    }
}

/// A whole pass through the access gate.
pub open spec fn access_decision(
    presented: Option<Claims>,
    now: u64,
    found: Result<User, StorageError>,
) -> Result<AuthUser, Denial> {
    match screened(presented, now) {
        Err(denial) => Err(denial),
        Ok(claims) => access_admission(claims, found),
    }
}

/// A whole pass through the refresh gate.
pub open spec fn refresh_decision(
    presented: Option<Claims>,
    now: u64,
    found: Result<User, StorageError>,
) -> Result<AuthUser, Denial> {
    match screened(presented, now) {
        Err(denial) => Err(denial),
        Ok(claims) => refresh_admission(claims, found),
    }
}

/// Screens the claims that a request presents at `now`.
pub fn screen(presented: Option<Claims>, now: u64) -> (r: Result<Claims, Denial>)
    ensures
        r == screened(presented, now),
{
    match presented {
        None => Err(Denial::NoToken),
        Some(claims) => {
            if !claims.valid_dates_at(now) {
                return Err(Denial::Expired);
            }
            Ok(claims)
        },
    }
}

/// The first half of the access gate: reads the access token from the jar
/// and checks its dates by the clock: what `screen` makes, at the reading of
/// the clock, of the claims that the jar presents. The claims that come
/// back name the account to ask the store for.
pub fn auth_middleware(jar: CookieJar, jwt_secret: &String) -> (r: Result<Claims, Denial>)
    ensures
        exists|now: u64|
            now <= CLOCK_MAX && r == #[trigger] screened(
                claims_presented(jar@, access_cookie(), jwt_secret@),
                now,
            ),
        value_of(jar@, access_cookie()) is None ==> r == Err::<Claims, Denial>(Denial::NoToken),
{
    let ghost shown = claims_presented(jar@, access_cookie(), jwt_secret@);
    let presented = match AccessToken::from_jar(jar, jwt_secret) {
        None => None,
        Some(token) => Some(token.claims),
    };
    assert(presented == shown);
    let now = unix_now();
    let r = screen(presented, now);
    assert(r == screened(shown, now));
    r
}

/// The second half of the access gate, on the answer of the store.
pub fn admit_access(claims: &Claims, found: Result<User, StorageError>) -> (r: Result<
    AuthUser,
    Denial,
>)
    ensures
        r == access_admission(*claims, found),
{
    let user = match found {
        Ok(user) => user,
        Err(_) => {
            return Err(Denial::UnknownUser);
        },
    };
    if user.tokenversion() != claims.tokenversion {
        return Err(Denial::VersionMismatch);
    }
    Ok(AuthUser(user))
}

/// The first half of the refresh gate: reads the refresh token from the jar
/// and checks its dates by the clock: what `screen` makes, at the reading of
/// the clock, of the claims that the jar presents.
pub fn refresh_token_auth_middleware(jar: CookieJar, jwt_secret: &String) -> (r: Result<
    Claims,
    Denial,
>)
    ensures
        exists|now: u64|
            now <= CLOCK_MAX && r == #[trigger] screened(
                claims_presented(jar@, refresh_cookie(), jwt_secret@),
                now,
            ),
        value_of(jar@, refresh_cookie()) is None ==> r == Err::<Claims, Denial>(Denial::NoToken),
{
    let ghost shown = claims_presented(jar@, refresh_cookie(), jwt_secret@);
    let presented = match RefreshToken::from_jar(jar, jwt_secret) {
        None => None,
        Some(token) => Some(token.claims),
    };
    assert(presented == shown);
    let now = unix_now();
    let r = screen(presented, now);
    assert(r == screened(shown, now));
    r
}

/// The second half of the refresh gate, on the answer of the store.
pub fn admit_refresh(claims: &Claims, found: Result<User, StorageError>) -> (r: Result<
    AuthUser,
    Denial,
>)
    ensures
        r == refresh_admission(*claims, found),
{
    let user = match found {
        Ok(user) => user,
        Err(e) => {
            if e.is_no_account() {
                return Err(Denial::UnknownUser);
            }
            return Err(Denial::LookupFault);
        },
    };
    if user.tokenversion() != claims.tokenversion {
        return Err(Denial::VersionMismatch);
    }
    Ok(AuthUser(user))
}

/// A change of password revokes. Claims made for an account before its
/// password changed are turned away by both gates for their token version,
/// at any hour at which they would otherwise hold; claims made for the
/// account after the change are let through.
pub proof fn lemma_password_change_revokes(
    before: User,
    after: User,
    earlier: Claims,
    later: Claims,
    now: u64,
)
    requires
        before@.tokenversion < u64::MAX,
        after@ == before@.with_password(after@.password).bumped(),
        earlier.sub == before@.uuid,
        earlier.tokenversion == before@.tokenversion,
        later.sub == after@.uuid,
        later.tokenversion == after@.tokenversion,
    ensures
        earlier.holds_at(now) ==> access_decision(Some(earlier), now, Ok(after)) == Err::<
            AuthUser,
            Denial,
        >(Denial::VersionMismatch),
        earlier.holds_at(now) ==> refresh_decision(Some(earlier), now, Ok(after)) == Err::<
            AuthUser,
            Denial,
        >(Denial::VersionMismatch),
        later.holds_at(now) ==> access_decision(Some(later), now, Ok(after)) == Ok::<
            AuthUser,
            Denial,
        >(AuthUser(after)),
        later.holds_at(now) ==> refresh_decision(Some(later), now, Ok(after)) == Ok::<
            AuthUser,
            Denial,
        >(AuthUser(after)),
{
}

/// The tokens of a removed account are turned away, not answered with a
/// fault of the server: where the store has no row for the claims, both
/// gates refuse the request as a bad one, whatever the claims.
pub proof fn lemma_removed_account_is_turned_away(presented: Option<Claims>, now: u64)
    ensures
        access_decision(presented, now, Err(StorageError::RowNotFound)) matches Err(denial)
            && denial.status_of() != Status::InternalServerError,
        refresh_decision(presented, now, Err(StorageError::RowNotFound)) matches Err(denial)
            && denial.status_of() != Status::InternalServerError,
        screened(presented, now) is Ok ==> access_decision(
            presented,
            now,
            Err(StorageError::RowNotFound),
        ) == Err::<AuthUser, Denial>(Denial::UnknownUser),
        screened(presented, now) is Ok ==> refresh_decision(
            presented,
            now,
            Err(StorageError::RowNotFound),
        ) == Err::<AuthUser, Denial>(Denial::UnknownUser),
{
}

/// Nothing passes a gate half-way: whoever is let through is the account
/// that the store found, under claims that hold and carry its token
/// version.
pub proof fn lemma_admitted_means_all_checks(
    presented: Option<Claims>,
    now: u64,
    found: Result<User, StorageError>,
)
    ensures
        access_decision(presented, now, found) matches Ok(admitted) ==> {
            &&& presented matches Some(claims) && claims.holds_at(now)
                && claims.tokenversion == admitted.0@.tokenversion
            &&& found == Ok::<User, StorageError>(admitted.0)
        },
        refresh_decision(presented, now, found) matches Ok(admitted) ==> {
            &&& presented matches Some(claims) && claims.holds_at(now)
                && claims.tokenversion == admitted.0@.tokenversion
            &&& found == Ok::<User, StorageError>(admitted.0)
        },
{
}

} // verus!
