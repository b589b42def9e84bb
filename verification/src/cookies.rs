//! The two cookies that a login hands out.

use crate::access_token::{access_cookie, ACCESS_TTL_MINUTES};
use crate::claims::Claims;
use crate::clock::CLOCK_MAX;
use crate::jar::{CookieJar, CookieView, SameSite};
use crate::jwt::{carries, signed_text};
use crate::refresh_token::{refresh_cookie, REFRESH_TTL_MINUTES};
use crate::response::Rejection;
use crate::user::{User, UserView};
use vstd::prelude::*;

verus! {

/// Whether `cookie` is called `name`, is closed to scripts and to other
/// sites, and holds the signed text of the claims of `user` made at some
/// reading of the clock to live `ttl_minutes`.
pub open spec fn is_token_cookie(
    cookie: CookieView,
    name: Seq<char>,
    ttl_minutes: u64,
    user: UserView,
    secret: Seq<char>,
) -> bool {
    &&& cookie.name == name
    &&& cookie.http_only
    &&& cookie.same_site == Some(SameSite::Strict)
    &&& exists|made: u64|
        made <= CLOCK_MAX && cookie.value == #[trigger] signed_text(
            Claims::made_at(user.uuid, user.tokenversion, ttl_minutes, made),
            secret,
        ) && carries(
            cookie.value,
            secret,
            Claims::made_at(user.uuid, user.tokenversion, ttl_minutes, made),
        )
}

/// Whether `after` is `before` with a fresh access cookie and a fresh
/// refresh cookie for `user` behind it, in that order.
pub open spec fn both_added(
    before: Seq<CookieView>,
    after: Seq<CookieView>,
    user: UserView,
    secret: Seq<char>,
) -> bool {
    &&& after.len() == before.len() + 2
    &&& after.take(before.len() as int) == before
    &&& is_token_cookie(
        after[before.len() as int],
        access_cookie(),
        ACCESS_TTL_MINUTES,
        user,
        secret,
    )
    &&& is_token_cookie(
        after[before.len() as int + 1],
        refresh_cookie(),
        REFRESH_TTL_MINUTES,
        user,
        secret,
    )
}

/// Whether `after` is `before` with one fresh cookie `name` for `user`
/// behind it.
pub open spec fn one_added(
    before: Seq<CookieView>,
    after: Seq<CookieView>,
    name: Seq<char>,
    ttl_minutes: u64,
    user: UserView,
    secret: Seq<char>,
) -> bool {
    &&& after.len() == before.len() + 1
    &&& after.take(before.len() as int) == before
    &&& is_token_cookie(after[before.len() as int], name, ttl_minutes, user, secret)
}

/// Makes an access token and a refresh token for `user` and adds both to the
/// jar, the access token first. Both are always made.
pub fn generate_cookies(user: &User, jar: CookieJar, jwt_secret: &String) -> (r: Result<
    CookieJar,
    Rejection,
>)
    ensures
        match r {
            Ok(filled) => both_added(jar@, filled@, user@, jwt_secret@),
            Err(_) => false,
        },
{
    let access_token = match user.generate_access_token(jwt_secret) {
        Some(access_token) => access_token,
        None => {
            return Err(Rejection::AccessCookieFailed);
        },
    };
    let refresh_token = match user.generate_refresh_token(jwt_secret) {
        Some(refresh_token) => refresh_token,
        None => {
            return Err(Rejection::RefreshCookieFailed);
        },
    };
    let ghost before = jar@;
    let jar = access_token.generate_cookie(jar);
    let jar = refresh_token.generate_cookie(jar);
    proof {
        assert(jar@.take(before.len() as int) =~= before);
        assert(jar@[before.len() as int].value == signed_text(
            Claims::made_at(
                user@.uuid,
                user@.tokenversion,
                ACCESS_TTL_MINUTES,
                access_token.claims.iat,
            ),
            jwt_secret@,
        ));
        assert(jar@[before.len() as int + 1].value == signed_text(
            Claims::made_at(
                user@.uuid,
                user@.tokenversion,
                REFRESH_TTL_MINUTES,
                refresh_token.claims.iat,
            ),
            jwt_secret@,
        ));
    }
    Ok(jar)
}

} // verus!
