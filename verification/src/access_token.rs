//! The short-lived token that admits a request.

use crate::claims::Claims;
use crate::clock::unix_now;
use crate::jar::{value_of, Cookie, CookieJar, CookieView, SameSite};
use crate::jwt::{issue, parse, SignError, TokenError};
use crate::token::{presented, Token};
use vstd::prelude::*;

verus! {

/// An access token lives twenty minutes.
pub const ACCESS_TTL_MINUTES: u64 = 20;

/// The name of the cookie that carries an access token.
pub open spec fn access_cookie() -> Seq<char> {
    "access_token"@
}

/// Claims and the signed text that carries them.
#[derive(Clone, Debug, PartialEq, Eq)]
pub struct AccessToken {
    pub claims: Claims,
    pub token: String,
}

impl Token for AccessToken {
    open spec fn held(&self) -> Claims {
        self.claims
    }

    open spec fn text(&self) -> Seq<char> {
        self.token@
    }

    open spec fn lifetime() -> u64 {
        ACCESS_TTL_MINUTES
    }

    fn from_claims(claims: Claims, jwt_secret: &String) -> (r: Result<Self, SignError>) {
        match issue(&claims, jwt_secret) {
            Ok(token) => Ok(Self { claims, token }),
            Err(e) => Err(e),
        }
    }

    fn from_literal(token: String, jwt_secret: &String) -> (r: Result<Self, TokenError>) {
        match parse(&token, jwt_secret) {
            Ok(claims) => Ok(Self { claims, token }),
            Err(e) => Err(e),
        }
    }

    fn decode_literal(&self, jwt_secret: &String) -> (r: Result<Claims, TokenError>) {
        parse(&self.token, jwt_secret)
    }

    fn to_string(&self) -> (r: String) {
        self.token.clone()
    }

    fn refresh_token_at(self, jwt_secret: &String, now: u64) -> (r: Result<Self, SignError>) {
        let renewed = Claims::issued_at(
            self.claims.sub,
            self.claims.tokenversion,
            ACCESS_TTL_MINUTES,
            now,
        );
        Self::from_claims(renewed, jwt_secret)
    }

    fn refresh_token(self, jwt_secret: &String) -> (r: Result<Self, SignError>) {
        let now = unix_now();
        self.refresh_token_at(jwt_secret, now)
    }
}

impl AccessToken {
    /// The cookie that carries this token.
    pub open spec fn cookie(&self) -> CookieView {
        CookieView {
            name: access_cookie(),
            value: self.token@,
            http_only: true,
            same_site: Some(SameSite::Strict),
        }
    }

    /// The token that the jar presents: the text of its cookie and the
    /// claims in it. A jar without the cookie and a cookie that does not
    /// parse look the same from outside.
    pub fn from_jar(jar: CookieJar, jwt_secret: &String) -> (r: Option<Self>)
        ensures
            match presented(jar@, access_cookie(), jwt_secret@) {
                Some((text, claims)) => r matches Some(token) && token.token@ == text
                    && token.claims == claims,
                None => r is None,
            },
    {
        match jar.get("access_token") {
            None => None,
            Some(value) => match Self::from_literal(value, jwt_secret) {
                Ok(token) => Some(token),
                Err(_) => None,
            },
        }
    }

    /// Adds the token to the jar, in a cookie that scripts cannot read and
    /// that other sites cannot send.
    pub fn generate_cookie(&self, jar: CookieJar) -> (r: CookieJar)
        ensures
            r@ == jar@.push(self.cookie()),
            value_of(r@, access_cookie()) == Some(self.token@),
    {
        let cookie = Cookie {
            name: String::from_str("access_token"),
            value: self.to_string(),
            http_only: true,
            same_site: Some(SameSite::Strict),
        };
        jar.add(cookie)
    }
}

} // verus!
