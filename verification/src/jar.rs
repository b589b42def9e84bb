//! The cookies that travel with a request and its response.

use vstd::prelude::*;

verus! {

/// What a cookie tells the browser about requests from other sites.
#[derive(Clone, Copy, Debug, PartialEq, Eq, Structural)]
pub enum SameSite {
    Strict,
    Lax,
    Unrestricted,
}

/// One cookie: a name, a value, and the two attributes that are set on the
/// cookies made here.
#[derive(Clone, Debug, PartialEq, Eq)]
pub struct Cookie {
    pub name: String,
    pub value: String,
    pub http_only: bool,
    pub same_site: Option<SameSite>,
}

/// A cookie as contracts see it.
pub struct CookieView {
    pub name: Seq<char>,
    pub value: Seq<char>,
    pub http_only: bool,
    pub same_site: Option<SameSite>,
}

impl View for Cookie {
    type V = CookieView;

    open spec fn view(&self) -> CookieView {
        CookieView {
            name: self.name@,
            value: self.value@,
            http_only: self.http_only,
            same_site: self.same_site,
        }
    }
}

/// The cookies of one exchange, in the order in which they were added. Of
/// two cookies with one name the later one counts.
#[derive(Clone, Debug, PartialEq, Eq)]
pub struct CookieJar {
    pub cookies: Vec<Cookie>,
}

/// The value under `name` among `cookies`: that of the last cookie of that
/// name.
pub open spec fn value_of(cookies: Seq<CookieView>, name: Seq<char>) -> Option<Seq<char>>
    decreases cookies.len(),
{
    if cookies.len() == 0 {
        None
    } else if cookies.last().name == name {
        Some(cookies.last().value)
    } else {
        value_of(cookies.drop_last(), name)
    }
}

impl View for CookieJar {
    type V = Seq<CookieView>;

    open spec fn view(&self) -> Seq<CookieView> {
        self.cookies@.map_values(|c: Cookie| c@)
    }
}

impl CookieJar {
    /// A jar without cookies.
    pub fn new() -> (jar: Self)
        ensures
            jar@ == Seq::<CookieView>::empty(),
    {
        let jar = CookieJar { cookies: Vec::new() };
        assert(jar@ =~= Seq::<CookieView>::empty());
        jar
    }

    /// The value of the cookie called `name`, if there is one.
    pub fn get(&self, name: &str) -> (value: Option<String>)
        ensures
            match value {
                Some(v) => value_of(self@, name@) == Some(v@),
                None => value_of(self@, name@) is None,
            },
    {
        let wanted = String::from_str(name);
        let mut i = self.cookies.len();
        assert(self@.take(i as int) =~= self@);
        while i > 0
            invariant
                i <= self.cookies.len(),
                wanted@ == name@,
                value_of(self@, name@) == value_of(self@.take(i as int), name@),
            decreases i,
        {
            i = i - 1;
            let ghost before = self@.take(i + 1);
            assert(before.last() == self.cookies[i as int]@);
            assert(before.drop_last() =~= self@.take(i as int));
            if self.cookies[i].name == wanted {
                return Some(self.cookies[i].value.clone());
            }
        }
        assert(self@.take(0) =~= Seq::<CookieView>::empty());
        None
    }

    /// The jar with `cookie` added; it hides any earlier cookie of its name.
    pub fn add(self, cookie: Cookie) -> (jar: Self)
        ensures
            jar@ == self@.push(cookie@),
            value_of(jar@, cookie.name@) == Some(cookie.value@),
            forall|name: Seq<char>|
                name != cookie.name@ ==> value_of(jar@, name) == value_of(self@, name),
    {
        let mut cookies = self.cookies;
        cookies.push(cookie);
        let jar = CookieJar { cookies };
        assert(jar@ =~= self@.push(cookie@));
        assert(jar@.drop_last() =~= self@);
        jar
    }
}

} // verus!
