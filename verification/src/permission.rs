//! Permission levels of an account.

use vstd::prelude::*;
use vstd::string::*;

verus! {

/// What an account is allowed to do. The level is carried with the account
/// and nothing here enforces it.
#[allow(non_camel_case_types)]
#[derive(Clone, Copy, Debug, PartialEq, Eq, Structural)]
pub enum Permission {
    USER,
    ADMIN,
}

/// The lowercase form that `str::to_lowercase` gives a string.
pub uninterp spec fn lowercase_of(s: Seq<char>) -> Seq<char>;

/// `str::to_lowercase`: the lowercase equivalent of `s` as a new string. The
/// mapping is Unicode's and too long to write out, so the result only has a
/// name.
#[verifier::external_body]
fn to_lowercase(s: &str) -> (r: String)
    ensures
        r@ == lowercase_of(s@),
{
    s.to_lowercase()
}

impl Permission {
    /// The name under which a level is stored.
    pub open spec fn name(self) -> Seq<char> {
        match self {
            Permission::USER => "USER"@,
            Permission::ADMIN => "ADMIN"@,
        }
    }

    /// The level that a lowercase name stands for.
    pub open spec fn of_lowercase(lower: Seq<char>) -> Option<Permission> {
        if lower == "user"@ {
            Some(Permission::USER)
        } else if lower == "admin"@ {
            Some(Permission::ADMIN)
        } else {
            None
        }
    }

    /// Reads a level from a name that is already in lowercase.
    pub fn from_lowercase(lower: &str) -> (r: Option<Permission>)
        ensures
            r == Self::of_lowercase(lower@),
    {
        let given = String::from_str(lower);
        if given == String::from_str("user") {
            Some(Permission::USER)
        } else if given == String::from_str("admin") {
            Some(Permission::ADMIN)
        } else {
            None
        }
    }

    /// Reads a level from its name, whatever the case of its letters.
    pub fn from_str(str: &str) -> (r: Option<Self>)
        ensures
            r == Self::of_lowercase(lowercase_of(str@)),
    {
        let lower = to_lowercase(str);
        Self::from_lowercase(lower.as_str())
    }

    /// The name of a level, in capitals.
    pub fn to_string(&self) -> (r: String)
        ensures
            r@ == self.name(),
    {
        match self {
            Permission::USER => String::from_str("USER"),
            Permission::ADMIN => String::from_str("ADMIN"),
        }
    }
}

} // verus!
