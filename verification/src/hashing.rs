//! Password hashing with Argon2id.

use argon2::password_hash::rand_core::OsRng;
use argon2::password_hash::{Salt, SaltString};
use argon2::{Algorithm, Argon2, Params, PasswordHash, PasswordHasher, PasswordVerifier, Version};
use crate::validation::{is_password_char, password_ok};
use vstd::prelude::*;

verus! {

/// Why a password could not be hashed or checked.
#[derive(Clone, Copy, Debug, PartialEq, Eq, Structural)]
pub enum HashError {
    /// The stored text is not an encoded hash.
    Unreadable,
    /// The hasher gave no hash.
    Refused,
}

/// The error of `password_hash`, carried through unread.
#[verifier::external_type_specification]
#[verifier::external_body]
pub struct ExPasswordHashError(argon2::password_hash::Error);

/// Whether `PasswordHash::new` reads `encoded` as an encoded hash.
pub uninterp spec fn phc_readable(encoded: Seq<char>) -> bool;

/// Whether `Argon2::verify_password` accepts `attempt` for the hash that
/// `encoded` holds: whether hashing the attempt with the salt and the
/// parameters of the hash gives its digest.
pub uninterp spec fn argon2_accepts(attempt: Seq<char>, encoded: Seq<char>) -> bool;

/// `PasswordHash::new` followed by `Argon2::verify_password`: parses
/// `encoded`, hashes `attempt` with the salt and the parameters found in it,
/// and compares the digests. An error comes from the parse alone, before
/// the attempt is looked at; a digest that differs, or parameters that
/// Argon2 refuses, give `false`.
#[verifier::external_body]
fn argon2_verify(attempt: &str, encoded: &str) -> (r: Result<bool, argon2::password_hash::Error>)
    ensures
        match r {
            Ok(matches) => phc_readable(encoded@) && matches == argon2_accepts(attempt@, encoded@),
            Err(_) => !phc_readable(encoded@),
        },
{
    let argon2 = Argon2::new(Algorithm::Argon2id, Version::V0x13, Params::default());
    let parsed = PasswordHash::new(encoded)?;
    Ok(argon2.verify_password(attempt.as_bytes(), &parsed).is_ok())
}

/// How every hash made here begins: the scheme, its version and its cost.
pub open spec fn encoded_prefix() -> Seq<char> {
    "$argon2id$v=19$m=19456,t=2,p=1$"@
}

/// How a hash made under `salt` begins: as every hash made here, then the
/// salt as it was given, then the sign that parts it from the digest.
pub open spec fn salted_prefix(salt: Seq<char>) -> Seq<char> {
    encoded_prefix() + salt + seq!['$']
}

/// The longest password, in characters, that Argon2 takes whatever its
/// characters are: four bytes each stay within the bytes it allows.
pub const MAX_PASSWORD_CHARS: usize = 0x3fff_ffff;

/// The characters of a salt that is drawn here.
pub const SALT_CHARS: usize = 22;

/// The encoded hash that `Argon2::hash_password` gives for `password` under
/// the salt `salt`, or nothing where it refuses the salt or the password.
pub uninterp spec fn argon2_encoded(password: Seq<char>, salt: Seq<char>) -> Option<Seq<char>>;

/// `SaltString::generate` on the random source of the system: sixteen
/// random bytes in base64, which are 22 characters. Whatever salt is drawn,
/// it is one that `Salt::from_b64` takes and that decodes to those sixteen
/// bytes, so under it Argon2 refuses nothing but a password of more bytes
/// than it allows.
#[verifier::external_body]
fn fresh_salt() -> (salt: String)
    ensures
        salt@.len() == SALT_CHARS,
        forall|password: Seq<char>|
            password.len() <= MAX_PASSWORD_CHARS ==> (#[trigger] argon2_encoded(
                password,
                salt@,
            )) is Some,
{
    SaltString::generate(&mut OsRng).as_str().to_string()
}

/// `Salt::from_b64` followed by `Argon2::hash_password`: hashes `password`
/// under `salt` and encodes the result. The outcome depends on the two
/// alone. A text that comes back begins with the scheme, the version and
/// the default cost, then holds the salt as it was given; it reads back as
/// the hash it encodes, and checking `password` against it recomputes the
/// same digest.
#[verifier::external_body]
fn argon2_hash(password: &str, salt: &str) -> (r: Result<String, argon2::password_hash::Error>)
    ensures
        match r {
            Ok(encoded) => {
                &&& argon2_encoded(password@, salt@) == Some(encoded@)
                &&& phc_readable(encoded@)
                &&& argon2_accepts(password@, encoded@)
                &&& salted_prefix(salt@).is_prefix_of(encoded@)
            },
            Err(_) => argon2_encoded(password@, salt@) is None,
        },
{
    let argon2 = Argon2::new(Algorithm::Argon2id, Version::V0x13, Params::default());
    let salt = Salt::from_b64(salt)?;
    Ok(argon2.hash_password(password.as_bytes(), salt)?.to_string())
}

/// The outcome of checking `attempt` against `encoded`: a verdict, or
/// `Unreadable` where `encoded` is no encoded hash.
pub open spec fn verify_outcome(attempt: Seq<char>, encoded: Seq<char>) -> Result<bool, HashError> {
    if phc_readable(encoded) {
        Ok(argon2_accepts(attempt, encoded))
    } else {
        Err(HashError::Unreadable)
    }
}

/// Whether `encoded` is a hash of `password` as it is made here: the text
/// that Argon2id gives for the password under some salt of 22 characters,
/// which it holds behind the scheme, the version and the cost.
pub open spec fn hashed_from(encoded: Seq<char>, password: Seq<char>) -> bool {
    exists|salt: Seq<char>|
        salt.len() == SALT_CHARS && #[trigger] argon2_encoded(password, salt) == Some(encoded)
            && salted_prefix(salt).is_prefix_of(encoded)
}

/// Hashes a password under a given salt: the text that Argon2id gives for
/// the two, wherever it gives one. That text holds the salt and accepts the
/// password.
pub fn hash_password_with_salt(password: &String, salt: &String) -> (r: Result<String, HashError>)
    ensures
        match argon2_encoded(password@, salt@) {
            Some(text) => {
                &&& r matches Ok(encoded) && encoded@ == text
                &&& verify_outcome(password@, text) == Ok::<bool, HashError>(true)
                &&& salted_prefix(salt@).is_prefix_of(text)
            },
            None => r == Err::<String, HashError>(HashError::Refused),
        },
{
    match argon2_hash(password.as_str(), salt.as_str()) {
        Ok(encoded) => Ok(encoded),
        Err(_) => Err(HashError::Refused),
    }
}

/// Hashes a password under a fresh salt. A password of no more than
/// `MAX_PASSWORD_CHARS` characters always gets its hash. Every hash that
/// comes back is the one of the password under the salt that was drawn; it
/// holds that salt, it accepts the password, and it begins as every hash
/// made here does.
pub fn hash_password(password: &String) -> (r: Result<String, HashError>)
    ensures
        password@.len() <= MAX_PASSWORD_CHARS ==> r is Ok,
        r matches Ok(encoded) ==> {
            &&& hashed_from(encoded@, password@)
            &&& verify_outcome(password@, encoded@) == Ok::<bool, HashError>(true)
            &&& encoded_prefix().is_prefix_of(encoded@)
        },
        r matches Err(e) ==> e == HashError::Refused,
{
    let salt = fresh_salt();
    let r = hash_password_with_salt(password, &salt);
    proof {
        if password@.len() <= MAX_PASSWORD_CHARS {
            assert(argon2_encoded(password@, salt@) is Some);
        }
        if r is Ok {
            assert(argon2_encoded(password@, salt@) == Some(r->Ok_0@));
            assert(encoded_prefix().is_prefix_of(salted_prefix(salt@)));
        }
    }
    r
}

/// Checks a password against an encoded hash. A password that does not match
/// is `Ok(false)`; only a hash that cannot be read is an error.
pub fn verify_password(attempt: &String, encoded: &String) -> (r: Result<bool, HashError>)
    ensures
        r == verify_outcome(attempt@, encoded@),
{
    match argon2_verify(attempt.as_str(), encoded.as_str()) {
        Ok(matches) => Ok(matches),
        Err(_) => Err(HashError::Unreadable),
    }
}

/// Whether a hash can be read does not hang on the attempt. So a hash that
/// accepts one password answers every other attempt with a verdict, never
/// with an error.
pub proof fn lemma_verdict_for_every_attempt(encoded: Seq<char>, one: Seq<char>, other: Seq<char>)
    ensures
        verify_outcome(one, encoded) is Ok <==> verify_outcome(other, encoded) is Ok,
        verify_outcome(one, encoded) == Ok::<bool, HashError>(true) ==> verify_outcome(
            other,
            encoded,
        ) is Ok,
{
}

/// A hash made here is no text that begins otherwise than every such hash
/// does; so it is not the password, unless the password itself begins so.
pub proof fn lemma_hash_is_no_password(password: Seq<char>, encoded: Seq<char>)
    requires
        encoded_prefix().is_prefix_of(encoded),
        !encoded_prefix().is_prefix_of(password),
    ensures
        encoded != password,
{
}

/// No password of the right shape begins as a hash does: a hash holds a
/// character that no password may hold. So the hash of such a password is
/// never the password.
pub proof fn lemma_password_is_no_hash(password: Seq<char>)
    requires
        password_ok(password),
    ensures
        !encoded_prefix().is_prefix_of(password),
{
    reveal_strlit("$argon2id$v=19$m=19456,t=2,p=1$");
    if encoded_prefix().is_prefix_of(password) {
        assert(encoded_prefix()[11] == '=');
        assert(password[11] == encoded_prefix()[11]);
        assert(!is_password_char(password[11]));
    }
}

} // verus!
