//! Shape rules for usernames and passwords.

use vstd::prelude::*;
use vstd::string::*;

verus! {

broadcast use vstd::string::group_string_axioms;

pub open spec fn is_lowercase(c: char) -> bool {
    'a' <= c <= 'z'
}

pub open spec fn is_uppercase(c: char) -> bool {
    'A' <= c <= 'Z'
}

pub open spec fn is_digit(c: char) -> bool {
    '0' <= c <= '9'
}

/// The punctuation a password may hold, and must hold one of.
pub open spec fn is_special(c: char) -> bool {
    c == '.' || c == '-' || c == '_' || c == '*' || c == '#' || c == '%' || c == '&' || c == '$'
        || c == '?'
}

pub open spec fn is_username_char(c: char) -> bool {
    is_lowercase(c) || is_uppercase(c) || is_digit(c) || c == '.' || c == '_' || c == '-'
}

pub open spec fn is_password_char(c: char) -> bool {
    is_lowercase(c) || is_uppercase(c) || is_digit(c) || is_special(c)
}

/// A username is 3 to 16 characters, each a letter, a digit, `.`, `_` or `-`.
pub open spec fn username_ok(s: Seq<char>) -> bool {
    &&& 3 <= s.len() <= 16
    &&& forall|i: int| 0 <= i < s.len() ==> is_username_char(#[trigger] s[i])
}

/// A password is 8 to 50 characters, each a letter, a digit or a special
/// character, with at least one of each of the four classes.
pub open spec fn password_ok(s: Seq<char>) -> bool {
    &&& 8 <= s.len() <= 50
    &&& forall|i: int| 0 <= i < s.len() ==> is_password_char(#[trigger] s[i])
    &&& exists|i: int| 0 <= i < s.len() && is_lowercase(#[trigger] s[i])
    &&& exists|i: int| 0 <= i < s.len() && is_uppercase(#[trigger] s[i])
    &&& exists|i: int| 0 <= i < s.len() && is_digit(#[trigger] s[i])
    &&& exists|i: int| 0 <= i < s.len() && is_special(#[trigger] s[i])
}

/// A username is refused for its length alone when it has fewer than 3 or
/// more than 16 characters, and for any one character that is not allowed;
/// one of 3 to 16 allowed characters is accepted, the two ends included.
pub proof fn lemma_username_rules(s: Seq<char>)
    ensures
        s.len() < 3 || s.len() > 16 ==> !username_ok(s),
        (exists|i: int| 0 <= i < s.len() && !is_username_char(#[trigger] s[i])) ==> !username_ok(s),
        (s.len() == 3 || s.len() == 16) && (forall|i: int|
            0 <= i < s.len() ==> is_username_char(#[trigger] s[i])) ==> username_ok(s),
{
}

/// A password that lacks one of the four classes is refused, whatever its
/// length; so is one with a character of no class.
pub proof fn lemma_password_needs_all_four(s: Seq<char>)
    ensures
        (forall|i: int| 0 <= i < s.len() ==> !is_lowercase(#[trigger] s[i])) ==> !password_ok(s),
        (forall|i: int| 0 <= i < s.len() ==> !is_uppercase(#[trigger] s[i])) ==> !password_ok(s),
        (forall|i: int| 0 <= i < s.len() ==> !is_digit(#[trigger] s[i])) ==> !password_ok(s),
        (forall|i: int| 0 <= i < s.len() ==> !is_special(#[trigger] s[i])) ==> !password_ok(s),
        (exists|i: int| 0 <= i < s.len() && !is_password_char(#[trigger] s[i])) ==> !password_ok(s),
        s.len() < 8 || s.len() > 50 ==> !password_ok(s),
{
}

/// A string of ASCII characters takes one byte for each of them.
proof fn lemma_ascii_byte_len(s: &str)
    requires
        is_ascii(s),
    ensures
        s.spec_bytes().len() == s@.len(),
{
    is_ascii_spec_bytes(s);
}

/// The length of `s` in bytes.
fn byte_len(s: &str) -> (n: usize)
    ensures
        n == s.spec_bytes().len(),
{
    s.as_bytes().len()
}

fn username_char(c: char) -> (r: bool)
    ensures
        r == is_username_char(c),
{
    (c >= 'a' && c <= 'z') || (c >= 'A' && c <= 'Z') || (c >= '0' && c <= '9') || c == '.' || c
        == '_' || c == '-'
}

fn special_char(c: char) -> (r: bool)
    ensures
        r == is_special(c),
{
    c == '.' || c == '-' || c == '_' || c == '*' || c == '#' || c == '%' || c == '&' || c == '$'
        || c == '?'
}

/// Whether every character of `s` is allowed in a username.
fn all_username_chars(s: &str) -> (r: bool)
    ensures
        r == (forall|i: int| 0 <= i < s@.len() ==> is_username_char(#[trigger] s@[i])),
{
    for c in it: s.chars()
        invariant
            it.seq() == s@,
            forall|i: int| 0 <= i < it.index() ==> is_username_char(#[trigger] s@[i]),
    {
        if !username_char(c) {
            return false;
        }
    }
    true
}

/// Validates a username by its length and its characters.
pub fn valid_username(username: &String) -> (r: bool)
    ensures
        r == username_ok(username@),
{
    let s = username.as_str();
    let len = byte_len(s);
    if len > 16 || len < 3 {
        proof {
            if username_ok(s@) {
                assert(is_ascii(s));
                lemma_ascii_byte_len(s);
            }
        }
        return false;
    }
    let allowed = all_username_chars(s);
    proof {
        if allowed {
            assert(is_ascii(s));
            lemma_ascii_byte_len(s);
        }
    }
    allowed
}

/// Validates a password by its length, its characters and the four classes
/// of character that it must hold.
pub fn valid_password(password: &String) -> (r: bool)
    ensures
        r == password_ok(password@),
{
    let s = password.as_str();
    let len = byte_len(s);
    if len > 50 || len < 8 {
        proof {
            if password_ok(s@) {
                assert(is_ascii(s));
                lemma_ascii_byte_len(s);
            }
        }
        return false;
    }
    let mut has_lowercase = false;
    let mut has_uppercase = false;
    let mut has_digit = false;
    let mut has_special = false;
    for c in it: s.chars()
        invariant
            it.seq() == s@,
            s@ == password@,
            forall|i: int| 0 <= i < it.index() ==> is_password_char(#[trigger] s@[i]),
            has_lowercase == (exists|i: int| 0 <= i < it.index() && is_lowercase(#[trigger] s@[i])),
            has_uppercase == (exists|i: int| 0 <= i < it.index() && is_uppercase(#[trigger] s@[i])),
            has_digit == (exists|i: int| 0 <= i < it.index() && is_digit(#[trigger] s@[i])),
            has_special == (exists|i: int| 0 <= i < it.index() && is_special(#[trigger] s@[i])),
    {
        let ghost at = it.index();
        assert(c == s@[at]);
        if c >= 'a' && c <= 'z' {
            has_lowercase = true;
        } else if c >= 'A' && c <= 'Z' {
            has_uppercase = true;
        } else if c >= '0' && c <= '9' {
            has_digit = true;
        } else if special_char(c) {
            has_special = true;
        } else {
            assert(!is_password_char(s@[at]));
            return false;
        }
    }
    proof {
        assert(is_ascii(s));
        lemma_ascii_byte_len(s);
    }
    has_lowercase && has_uppercase && has_digit && has_special
}

} // verus!
