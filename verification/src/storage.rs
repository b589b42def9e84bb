//! What the store of accounts answers, as far as decisions depend on it.

use vstd::prelude::*;

verus! {

broadcast use vstd::string::group_string_axioms;

/// A failure of the store.
#[derive(Clone, Debug, PartialEq, Eq)]
pub enum StorageError {
    /// No row answers the query.
    RowNotFound,
    /// The database refused the statement, with this message.
    Database(String),
    /// Anything else: the connection, the pool, the driver.
    Other,
}

/// Which unique column an insert ran into.
#[derive(Clone, Copy, Debug, PartialEq, Eq, Structural)]
pub enum Conflict {
    Username,
    Email,
    Other,
}

/// Whether `needle` stands in `hay` from position `at` on.
pub open spec fn occurs_at(hay: Seq<char>, needle: Seq<char>, at: int) -> bool {
    &&& 0 <= at
    &&& at + needle.len() <= hay.len()
    &&& hay.subrange(at, at + needle.len()) == needle
}

/// Whether `needle` stands somewhere in `hay`.
pub open spec fn contains(hay: Seq<char>, needle: Seq<char>) -> bool {
    exists|at: int| occurs_at(hay, needle, at)
}

/// The characters of a string, one by one.
fn chars_of(s: &str) -> (chars: Vec<char>)
    ensures
        chars@ == s@,
{
    let mut chars: Vec<char> = Vec::new();
    for c in it: s.chars()
        invariant
            it.seq() == s@,
            chars@ == s@.take(it.index()),
    {
        let ghost at = it.index();
        chars.push(c);
        assert(chars@ =~= s@.take(at + 1));
    }
    assert(s@.take(s@.len() as int) =~= s@);
    chars
}

/// Whether `needle` stands in `hay` from position `at` on.
fn matches_at(hay: &Vec<char>, needle: &Vec<char>, at: usize) -> (r: bool)
    requires
        at + needle.len() <= hay.len(),
    ensures
        r == occurs_at(hay@, needle@, at as int),
{
    let mut k: usize = 0;
    while k < needle.len()
        invariant
            k <= needle.len(),
            at + needle.len() <= hay.len(),
            forall|j: int| 0 <= j < k ==> hay@[at + j] == needle@[j],
        decreases needle.len() - k,
    {
        if hay[at + k] != needle[k] {
            assert(hay@.subrange(at as int, at + needle.len())[k as int] != needle@[k as int]);
            return false;
        }
        k = k + 1;
    }
    assert(hay@.subrange(at as int, at + needle.len()) =~= needle@);
    true
}

/// Whether the text `word` stands somewhere in `message`.
pub fn mentions(message: &str, word: &str) -> (r: bool)
    ensures
        r == contains(message@, word@),
{
    let hay = chars_of(message);
    let needle = chars_of(word);
    if needle.len() > hay.len() {
        return false;
    }
    let last: usize = hay.len() - needle.len();
    let mut at: usize = 0;
    loop
        invariant
            at <= last,
            last == hay.len() - needle.len(),
            hay@ == message@,
            needle@ == word@,
            forall|i: int| 0 <= i < at ==> !occurs_at(hay@, needle@, i),
        decreases last - at,
    {
        if matches_at(&hay, &needle, at) {
            return true;
        }
        if at == last {
            return false;
        }
        at = at + 1;
    }
}

impl StorageError {
    /// The unique column that a refused insert ran into, by the message of
    /// the database: the email where the message names it, else the username
    /// where it names that, else neither.
    pub open spec fn conflict_of(self) -> Conflict {
        match self {
            StorageError::Database(message) => if contains(message@, "email"@) {
                Conflict::Email
            } else if contains(message@, "username"@) {
                Conflict::Username
            } else {
                Conflict::Other
            },
            _ => Conflict::Other,
        }
    }

    /// Tells which unique column a refused insert ran into.
    pub fn conflict(&self) -> (r: Conflict)
        ensures
            r == self.conflict_of(),
    {
        match self {
            StorageError::Database(message) => {
                if mentions(message.as_str(), "email") {
                    Conflict::Email
                } else if mentions(message.as_str(), "username") {
                    Conflict::Username
                } else {
                    Conflict::Other
                }
            },
            _ => Conflict::Other,
        }
    }

    /// Whether the database refused the statement over the identifier.
    pub open spec fn blames_identifier(self) -> bool {
        self matches StorageError::Database(message) && contains(message@, "uuid"@)
    }

    /// Tells whether the database refused the statement over the identifier.
    pub fn is_identifier_fault(&self) -> (r: bool)
        ensures
            r == self.blames_identifier(),
    {
        match self {
            StorageError::Database(message) => mentions(message.as_str(), "uuid"),
            _ => false,
        }
    }

    /// Whether the failure says that there is no such account: no row
    /// answers, or the database refuses the identifier. Anything else is a
    /// fault of the store.
    pub open spec fn means_no_account(self) -> bool {
        self is RowNotFound || self.blames_identifier()
    }

    /// Tells whether the failure says that there is no such account.
    pub fn is_no_account(&self) -> (r: bool)
        ensures
            r == self.means_no_account(),
    {
        match self {
            StorageError::RowNotFound => true,
            _ => self.is_identifier_fault(),
        }
    }
}

} // verus!
