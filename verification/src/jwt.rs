//! Signed tokens: claims in, signed text out, and back.

use crate::claims::Claims;
use jsonwebtoken::errors::ErrorKind;
use jsonwebtoken::{decode, encode, DecodingKey, EncodingKey, Header, Validation};
use uuid::Uuid;
use vstd::prelude::*;

verus! {

/// A token could not be signed.
#[derive(Clone, Copy, Debug, PartialEq, Eq, Structural)]
pub struct SignError;

/// Why a text is not read as a token.
#[derive(Clone, Copy, Debug, PartialEq, Eq, Structural)]
pub enum TokenError {
    /// The text is no token, or its payload lacks a claim.
    Malformed,
    /// The signature does not belong to the text under the secret.
    BadSignature,
}

/// The four claims as a payload gives them: each is absent where the payload
/// has no member of that name, or one of another type.
#[derive(Clone, Copy, Debug, PartialEq, Eq, Structural)]
pub struct Payload {
    pub sub: Option<u128>,
    pub tokenversion: Option<u64>,
    pub iat: Option<u64>,
    pub exp: Option<u64>,
}

/// The error of `jsonwebtoken`, carried through unread.
#[verifier::external_type_specification]
#[verifier::external_body]
pub struct ExJwtError(jsonwebtoken::errors::Error);

/// The text that `jsonwebtoken::encode` gives for `claims` under `secret`.
pub uninterp spec fn signed_text(claims: Claims, secret: Seq<char>) -> Seq<char>;

/// What `jsonwebtoken::decode` makes of `token` under `secret`: the claims
/// of its payload, or why it refuses the token: `BadSignature` where the
/// signature does not fit, `Malformed` for any other cause, be it the form,
/// the algorithm or a payload without `exp`.
pub uninterp spec fn signed_payload(token: Seq<char>, secret: Seq<char>) -> Result<
    Payload,
    TokenError,
>;

/// `jsonwebtoken::encode` with the default header (HS256) and `secret` as the
/// key, on a payload with the members `exp`, `iat`, `sub` (the identifier in
/// hyphenated form) and `tokenversion`. With a key for HMAC and a payload of
/// numbers and text nothing in it can fail. The text depends on the claims
/// and the secret alone, and it carries these claims: its signature is the
/// one that `decode` recomputes under the same secret, and each member
/// reads back as it was written.
#[verifier::external_body]
fn encode_claims(claims: &Claims, secret: &str) -> (r: Result<String, jsonwebtoken::errors::Error>)
    ensures
        match r {
            Ok(token) => token@ == signed_text(*claims, secret@) && carries(token@, secret@, *claims),
            Err(_) => false,
        },
{
    let mut payload = serde_json::Map::new();
    payload.insert("exp".to_string(), serde_json::Value::from(claims.exp));
    payload.insert("iat".to_string(), serde_json::Value::from(claims.iat));
    let sub = Uuid::from_u128(claims.sub).hyphenated().to_string();
    payload.insert("sub".to_string(), serde_json::Value::from(sub));
    payload.insert("tokenversion".to_string(), serde_json::Value::from(claims.tokenversion));
    encode(&Header::default(), &payload, &EncodingKey::from_secret(secret.as_bytes()))
}

/// `jsonwebtoken::decode` with `secret` as the key and the default
/// validation (HS256, `exp` required) but for the check of `exp` against the
/// clock, which is switched off: whether claims hold at a given hour is for
/// `Claims::valid_dates` to say. So the outcome depends on the token and the
/// secret alone. `sub` is read with `Uuid::parse_str`, the other members as
/// unsigned numbers; of the errors, `Error::kind` tells a signature that
/// does not fit from the rest.
#[verifier::external_body]
fn decode_payload(token: &str, secret: &str) -> (r: Result<Payload, TokenError>)
    ensures
        r == signed_payload(token@, secret@),
{
    let mut rules = Validation::default();
    rules.validate_exp = false;
    match decode::<serde_json::Value>(token, &DecodingKey::from_secret(secret.as_bytes()), &rules) {
        Ok(found) => Ok(Payload {
            sub: found.claims["sub"].as_str().and_then(|s| Uuid::parse_str(s).ok()).map(|id| id.as_u128()),
            tokenversion: found.claims["tokenversion"].as_u64(),
            iat: found.claims["iat"].as_u64(),
            exp: found.claims["exp"].as_u64(),
        }),
        Err(error) => match error.kind() {
            ErrorKind::InvalidSignature => Err(TokenError::BadSignature),
            _ => Err(TokenError::Malformed),
        },
    }
}

impl Payload {
    /// The payload that holds all of `claims`.
    pub open spec fn of(claims: Claims) -> Payload {
        Payload {
            sub: Some(claims.sub),
            tokenversion: Some(claims.tokenversion),
            iat: Some(claims.iat),
            exp: Some(claims.exp),
        }
    }

    /// The claims of a payload that lacks none of them.
    pub open spec fn claims(self) -> Option<Claims> {
        match (self.sub, self.tokenversion, self.iat, self.exp) {
            (Some(sub), Some(tokenversion), Some(iat), Some(exp)) => Some(
                Claims { sub, tokenversion, iat, exp },
            ),
            _ => None,
        }
    }

    /// What reading the claims out of the payload gives: the claims, or
    /// `Malformed` where one is lacking.
    pub open spec fn read(self) -> Result<Claims, TokenError> {
        match self.claims() {
            Some(claims) => Ok(claims),
            None => Err(TokenError::Malformed),
        }
    }

    /// Reads the claims out of a payload; one that lacks a claim is
    /// malformed.
    pub fn into_claims(self) -> (r: Result<Claims, TokenError>)
        ensures
            r == self.read(),
    {
        match (self.sub, self.tokenversion, self.iat, self.exp) {
            (Some(sub), Some(tokenversion), Some(iat), Some(exp)) => Ok(
                Claims { sub, tokenversion, iat, exp },
            ),
            _ => Err(TokenError::Malformed),
        }
    }
}

/// What reading `token` under `secret` gives: the claims of its payload,
/// `Malformed` where the payload lacks one, or why the token is refused.
pub open spec fn parsed(token: Seq<char>, secret: Seq<char>) -> Result<Claims, TokenError> {
    match signed_payload(token, secret) {
        Ok(payload) => payload.read(),
        Err(e) => Err(e),
    }
}

/// The claims that `token` holds under `secret`, where it holds any.
pub open spec fn claims_in(token: Seq<char>, secret: Seq<char>) -> Option<Claims> {
    match parsed(token, secret) {
        Ok(claims) => Some(claims),
        Err(_) => None,
    }
}

/// Whether `token` carries exactly `claims` under `secret`.
pub open spec fn carries(token: Seq<char>, secret: Seq<char>, claims: Claims) -> bool {
    signed_payload(token, secret) == Ok::<Payload, TokenError>(Payload::of(claims))
}

/// Signs `claims` under `secret`: always gives their signed text, and that
/// text carries the claims.
pub fn issue(claims: &Claims, secret: &String) -> (r: Result<String, SignError>)
    ensures
        r matches Ok(token) && token@ == signed_text(*claims, secret@) && carries(
            token@,
            secret@,
            *claims,
        ),
{
    match encode_claims(claims, secret.as_str()) {
        Ok(token) => Ok(token),
        Err(_) => Err(SignError),
    }
}

/// Checks the signature of `token` under `secret` and reads its claims. No
/// claim is read from a token whose signature fails. Whether the claims
/// hold at this hour is not asked here.
pub fn parse(token: &String, secret: &String) -> (r: Result<Claims, TokenError>)
    ensures
        r == parsed(token@, secret@),
{
    match decode_payload(token.as_str(), secret.as_str()) {
        Ok(payload) => payload.into_claims(),
        Err(e) => Err(e),
    }
}

/// A text carries the claims that are read from it, and no others.
pub proof fn lemma_carries_what_is_read(token: Seq<char>, secret: Seq<char>, claims: Claims)
    ensures
        carries(token, secret, claims) <==> parsed(token, secret) == Ok::<Claims, TokenError>(claims),
{
}

/// Whatever claims a text was issued with, those are read back from it: a
/// text that carries `issued` under a secret, as every text does that
/// `issue` gives, is read as exactly `issued` under that secret.
pub proof fn lemma_claims_round_trip(token: Seq<char>, secret: Seq<char>, issued: Claims)
    requires
        carries(token, secret, issued),
    ensures
        parsed(token, secret) == Ok::<Claims, TokenError>(issued),
        claims_in(token, secret) == Some(issued),
{
}

} // verus!
