//! What the two kinds of token have in common.

use crate::claims::Claims;
use crate::clock::CLOCK_MAX;
use crate::jar::{value_of, CookieView};
use crate::jwt::{carries, claims_in, parsed, signed_text, SignError, TokenError};
use vstd::prelude::*;

verus! {

/// A signed token: claims together with their signed text. The kinds differ
/// in how long they live and in the cookie they travel in.
pub trait Token: Sized {
    /// The claims that the token holds.
    spec fn held(&self) -> Claims;

    /// The signed text of the token.
    spec fn text(&self) -> Seq<char>;

    /// The minutes that a token of this kind lives.
    spec fn lifetime() -> u64;

    /// Signs `claims`: always gives the token of `claims` and their signed
    /// text. Nothing checks that the claims hold now.
    fn from_claims(claims: Claims, jwt_secret: &String) -> (r: Result<Self, SignError>)
        ensures
            r matches Ok(token) && token.held() == claims && token.text() == signed_text(
                claims,
                jwt_secret@,
            ) && carries(token.text(), jwt_secret@, claims),
    ;

    /// Reads a token from its signed text, signature first: the token of
    /// that text and the claims in it, or why the text is refused.
    fn from_literal(token: String, jwt_secret: &String) -> (r: Result<Self, TokenError>)
        ensures
            match parsed(token@, jwt_secret@) {
                Ok(claims) => r matches Ok(read) && read.held() == claims && read.text() == token@,
                Err(e) => r matches Err(refusal) && refusal == e,
            },
    ;

    /// Reads the claims out of the token's own text again.
    fn decode_literal(&self, jwt_secret: &String) -> (r: Result<Claims, TokenError>)
        ensures
            r == parsed(self.text(), jwt_secret@),
    ;

    /// The signed text.
    fn to_string(&self) -> (r: String)
        ensures
            r@ == self.text(),
    ;

    /// A new token for the same account and token version, made at `now`
    /// with the lifetime of this kind.
    fn refresh_token_at(self, jwt_secret: &String, now: u64) -> (r: Result<Self, SignError>)
        requires
            now + Self::lifetime() * 60 <= u64::MAX,
        ensures
            r matches Ok(token) && token.held() == self.held().renewed_at(Self::lifetime(), now)
                && token.text() == signed_text(token.held(), jwt_secret@) && carries(
                token.text(),
                jwt_secret@,
                token.held(),
            ),
    ;

    /// A new token for the same account and token version, made now with
    /// the lifetime of this kind: what `refresh_token_at` gives at the
    /// reading of the clock, which the new claims hold as the time they
    /// were made.
    fn refresh_token(self, jwt_secret: &String) -> (r: Result<Self, SignError>)
        ensures
            r matches Ok(token) && token.held().iat <= CLOCK_MAX && token.held()
                == self.held().renewed_at(Self::lifetime(), token.held().iat) && token.text()
                == signed_text(token.held(), jwt_secret@) && carries(
                token.text(),
                jwt_secret@,
                token.held(),
            ),
    ;
}

/// What a jar presents under the cookie `name`: the text of that cookie and
/// the claims that it holds under `secret`. A jar without the cookie and a
/// cookie whose text holds no claims present nothing alike.
pub open spec fn presented(jar: Seq<CookieView>, name: Seq<char>, secret: Seq<char>) -> Option<
    (Seq<char>, Claims),
> {
    match value_of(jar, name) {
        Some(text) => match claims_in(text, secret) {
            Some(claims) => Some((text, claims)),
            None => None,
        },
        None => None,
    }
}

/// The claims that a jar presents under the cookie `name`.
pub open spec fn claims_presented(jar: Seq<CookieView>, name: Seq<char>, secret: Seq<char>) -> Option<
    Claims,
> {
    match presented(jar, name, secret) {
        Some((_, claims)) => Some(claims),
        None => None,
    }
}

/// Renewal keeps the account and the token version. Where the clock has
/// moved on since the earlier claims were made, and they had the same
/// lifetime, the new claims are made later and run out later.
pub proof fn lemma_renewal_moves_forward(earlier: Claims, lifetime: u64, now: u64)
    requires
        now + lifetime * 60 <= u64::MAX,
        earlier.exp == earlier.iat + lifetime * 60,
        earlier.iat < now,
    ensures
        earlier.renewed_at(lifetime, now).sub == earlier.sub,
        earlier.renewed_at(lifetime, now).tokenversion == earlier.tokenversion,
        earlier.renewed_at(lifetime, now).iat > earlier.iat,
        earlier.renewed_at(lifetime, now).exp > earlier.exp,
{
}

} // verus!
