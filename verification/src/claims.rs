//! The signed payload of a token.

use crate::clock::{unix_now, CLOCK_MAX};
use crate::user::User;
use vstd::prelude::*;

verus! {

/// The longest lifetime, in minutes, that fits behind any reading of the
/// clock.
pub const MAX_TTL_MINUTES: u64 = 153_722_867_280_912_930;

/// What a token asserts: whose it is, which token version of the account it
/// was issued under, and the window of time in which it holds.
#[derive(Clone, Copy, Debug, PartialEq, Eq, Structural)]
pub struct Claims {
    /// The account's identifier.
    pub sub: u128,
    /// The account's token version when the claims were made.
    pub tokenversion: u64,
    /// When the claims were made, in seconds since the epoch.
    pub iat: u64,
    /// When the claims run out, in seconds since the epoch.
    pub exp: u64,
}

impl Claims {
    /// The claims made at `now` for `sub`, to run out `ttl_minutes` later.
    pub open spec fn made_at(sub: u128, tokenversion: u64, ttl_minutes: u64, now: u64) -> Claims {
        Claims { sub, tokenversion, iat: now, exp: (now + ttl_minutes * 60) as u64 }
    }

    /// The claims that follow these at `now`: the same account and token
    /// version, a new window of `ttl_minutes`.
    pub open spec fn renewed_at(self, ttl_minutes: u64, now: u64) -> Claims {
        Self::made_at(self.sub, self.tokenversion, ttl_minutes, now)
    }

    /// Whether the claims hold at `now`: made no later, running out no
    /// earlier.
    pub open spec fn holds_at(self, now: u64) -> bool {
        self.exp >= now && self.iat <= now
    }

    /// Claims for `sub` made at `now`, to run out `ttl_minutes` later.
    pub fn issued_at(sub: u128, tokenversion: u64, ttl_minutes: u64, now: u64) -> (claims: Self)
        requires
            now + ttl_minutes * 60 <= u64::MAX,
        ensures
            claims == Self::made_at(sub, tokenversion, ttl_minutes, now),
            claims.exp == now + ttl_minutes * 60,
    {
        Claims { sub, tokenversion, iat: now, exp: now + ttl_minutes * 60 }
    }

    /// Claims for `sub` made now, to run out in `exp` minutes.
    pub fn new(sub: u128, tokenversion: u64, exp: u64) -> (claims: Self)
        requires
            exp <= MAX_TTL_MINUTES,
        ensures
            claims.sub == sub,
            claims.tokenversion == tokenversion,
            claims.iat <= CLOCK_MAX,
            claims == Self::made_at(sub, tokenversion, exp, claims.iat),
            claims.exp == claims.iat + exp * 60,
    {
        let now = unix_now();
        Self::issued_at(sub, tokenversion, exp, now)
    }

    /// Claims for the account `user` made now, to run out in `exp` minutes.
    pub fn from_user(user: &User, exp: u64) -> (claims: Self)
        requires
            exp <= MAX_TTL_MINUTES,
        ensures
            claims.iat <= CLOCK_MAX,
            claims == Self::made_at(user@.uuid, user@.tokenversion, exp, claims.iat),
            claims.exp == claims.iat + exp * 60,
    {
        Self::new(user.uuid(), user.tokenversion(), exp)
    }

    /// Whether the claims hold at `now`.
    pub fn valid_dates_at(&self, now: u64) -> (valid: bool)
        ensures
            valid == self.holds_at(now),
    {
        if self.exp < now {
            return false;
        }
        if self.iat > now {
            return false;
        }
        true
    }

    /// Whether the claims hold now, by the system clock.
    pub fn valid_dates(&self) -> (valid: bool)
        ensures
            exists|now: u64| now <= CLOCK_MAX && valid == #[trigger] self.holds_at(now),
            valid ==> self.iat <= self.exp && self.iat <= CLOCK_MAX,
    {
        let now = unix_now();
        let valid = self.valid_dates_at(now);
        assert(valid == self.holds_at(now));
        valid
    }
}

/// Claims hold from the second they were made to the second they run out,
/// and at no other time.
pub proof fn lemma_validity_window(claims: Claims, now: u64)
    ensures
        claims.exp < now ==> !claims.holds_at(now),
        claims.iat > now ==> !claims.holds_at(now),
        claims.iat <= now <= claims.exp ==> claims.holds_at(now),
{
}

} // verus!
