use messenger_lib::access_token::AccessToken;
use messenger_lib::claims::Claims;
use messenger_lib::jar::{Cookie, CookieJar};
use messenger_lib::middleware::{
    admit_access, admit_refresh, auth_middleware, refresh_token_auth_middleware, screen, AuthUser,
    Denial,
};
use messenger_lib::permission::Permission;
use messenger_lib::refresh_token::RefreshToken;
use messenger_lib::response::Status;
use messenger_lib::storage::StorageError;
use messenger_lib::token::Token;
use messenger_lib::user::User;

fn secret() -> String {
    "a secret that nobody knows".to_string()
}

fn alice(tokenversion: u64) -> User {
    User::from_parts(
        0xa11ce,
        "alice".to_string(),
        "hash".to_string(),
        "a@x.com".to_string(),
        Permission::USER,
        tokenversion,
        1_700_000_000,
    )
}

#[test]
fn screen_turns_away_a_request_without_claims() {
    assert_eq!(screen(None, 1_000), Err(Denial::NoToken));
}

#[test]
fn screen_lets_claims_through_while_they_hold() {
    let claims = Claims::issued_at(1, 0, 20, 1_000);
    assert_eq!(screen(Some(claims), 999), Err(Denial::Expired));
    assert_eq!(screen(Some(claims), 1_000), Ok(claims));
    assert_eq!(screen(Some(claims), 2_200), Ok(claims));
    assert_eq!(screen(Some(claims), 2_201), Err(Denial::Expired));
}

#[test]
fn access_gate_admits_the_account_under_its_token_version() {
    let claims = Claims::issued_at(0xa11ce, 3, 20, 1_000);
    assert_eq!(admit_access(&claims, Ok(alice(3))), Ok(AuthUser(alice(3))));
}

#[test]
fn access_gate_refuses_another_token_version() {
    let claims = Claims::issued_at(0xa11ce, 3, 20, 1_000);
    assert_eq!(admit_access(&claims, Ok(alice(4))), Err(Denial::VersionMismatch));
    assert_eq!(admit_access(&claims, Ok(alice(2))), Err(Denial::VersionMismatch));
}

#[test]
fn access_gate_takes_every_failure_of_the_store_for_a_bad_request() {
    let claims = Claims::issued_at(0xa11ce, 3, 20, 1_000);
    for failure in [
        StorageError::RowNotFound,
        StorageError::Other,
        StorageError::Database("invalid uuid".to_string()),
        StorageError::Database("disk I/O error".to_string()),
    ] {
        assert_eq!(admit_access(&claims, Err(failure)), Err(Denial::UnknownUser));
    }
}

#[test]
fn refresh_gate_admits_the_account_under_its_token_version() {
    let claims = Claims::issued_at(0xa11ce, 3, 525_600, 1_000);
    assert_eq!(admit_refresh(&claims, Ok(alice(3))), Ok(AuthUser(alice(3))));
    assert_eq!(admit_refresh(&claims, Ok(alice(4))), Err(Denial::VersionMismatch));
}

#[test]
fn refresh_gate_sorts_the_failures_of_the_store() {
    let claims = Claims::issued_at(0xa11ce, 3, 525_600, 1_000);
    assert_eq!(
        admit_refresh(&claims, Err(StorageError::Database("invalid uuid".to_string()))),
        Err(Denial::UnknownUser)
    );
    assert_eq!(
        admit_refresh(&claims, Err(StorageError::Database("disk I/O error".to_string()))),
        Err(Denial::LookupFault)
    );
    assert_eq!(admit_refresh(&claims, Err(StorageError::RowNotFound)), Err(Denial::UnknownUser));
    assert_eq!(admit_refresh(&claims, Err(StorageError::Other)), Err(Denial::LookupFault));
}

#[test]
fn gates_turn_away_the_token_of_a_removed_account_as_a_bad_request() {
    let claims = Claims::issued_at(0xa11ce, 3, 525_600, 1_000);
    for denial in [
        admit_access(&claims, Err(StorageError::RowNotFound)).unwrap_err(),
        admit_refresh(&claims, Err(StorageError::RowNotFound)).unwrap_err(),
    ] {
        assert_eq!(denial, Denial::UnknownUser);
        assert_eq!(denial.status(), Status::BadRequest);
        assert_eq!(denial.status().code(), 400);
    }
}

#[test]
fn access_gate_reads_the_access_cookie() {
    let token = alice(3).generate_access_token(&secret()).unwrap();
    let jar = token.generate_cookie(CookieJar::new());
    assert_eq!(auth_middleware(jar.clone(), &secret()), Ok(token.claims));
    assert_eq!(refresh_token_auth_middleware(jar, &secret()), Err(Denial::NoToken));
}

#[test]
fn refresh_gate_reads_the_refresh_cookie() {
    let token = alice(3).generate_refresh_token(&secret()).unwrap();
    let jar = token.generate_cookie(CookieJar::new());
    assert_eq!(refresh_token_auth_middleware(jar.clone(), &secret()), Ok(token.claims));
    assert_eq!(auth_middleware(jar, &secret()), Err(Denial::NoToken));
}

#[test]
fn gates_turn_away_a_request_without_a_token() {
    assert_eq!(auth_middleware(CookieJar::new(), &secret()), Err(Denial::NoToken));
    assert_eq!(refresh_token_auth_middleware(CookieJar::new(), &secret()), Err(Denial::NoToken));
}

#[test]
fn gates_turn_away_a_token_that_cannot_be_read() {
    let garbage = CookieJar::new().add(Cookie {
        name: "access_token".to_string(),
        value: "garbage".to_string(),
        http_only: true,
        same_site: None,
    });
    assert_eq!(auth_middleware(garbage, &secret()), Err(Denial::NoToken));
    let token = alice(3).generate_access_token(&secret()).unwrap();
    let jar = token.generate_cookie(CookieJar::new());
    assert_eq!(auth_middleware(jar, &"another secret".to_string()), Err(Denial::NoToken));
}

#[test]
fn gates_turn_away_a_token_that_ran_out() {
    let old = AccessToken::from_claims(Claims::issued_at(0xa11ce, 3, 20, 1_000), &secret()).unwrap();
    let jar = old.generate_cookie(CookieJar::new());
    assert_eq!(auth_middleware(jar, &secret()), Err(Denial::Expired));
    let old =
        RefreshToken::from_claims(Claims::issued_at(0xa11ce, 3, 525_600, 1_000), &secret()).unwrap();
    let jar = old.generate_cookie(CookieJar::new());
    assert_eq!(refresh_token_auth_middleware(jar, &secret()), Err(Denial::Expired));
}

#[test]
fn gates_turn_away_a_token_that_ran_out_under_another_secret_as_unread() {
    let old = AccessToken::from_claims(Claims::issued_at(0xa11ce, 3, 20, 1_000), &secret()).unwrap();
    let jar = old.generate_cookie(CookieJar::new());
    assert_eq!(auth_middleware(jar, &"another secret".to_string()), Err(Denial::NoToken));
}

#[test]
fn access_gate_turns_away_a_token_from_the_future() {
    let now = Claims::new(1, 0, 0).iat;
    let early = AccessToken::from_claims(
        Claims { sub: 0xa11ce, tokenversion: 3, iat: now + 3_600, exp: now + 7_200 },
        &secret(),
    )
    .unwrap();
    let jar = early.generate_cookie(CookieJar::new());
    assert_eq!(auth_middleware(jar, &secret()), Err(Denial::Expired));
}

#[test]
fn change_of_password_revokes_the_tokens_issued_before() {
    let before = User::from_parts(
        0xa11ce,
        "alice".to_string(),
        messenger_lib::hashing::hash_password(&"Abcdef1$".to_string()).unwrap(),
        "a@x.com".to_string(),
        Permission::USER,
        3,
        1_700_000_000,
    );
    let earlier = before.generate_access_token(&secret()).unwrap();
    let after = before.update_password("Ghijkl2?".to_string()).unwrap();
    let later = after.generate_access_token(&secret()).unwrap();

    let presented = auth_middleware(earlier.generate_cookie(CookieJar::new()), &secret()).unwrap();
    assert_eq!(admit_access(&presented, Ok(after.clone())), Err(Denial::VersionMismatch));
    assert_eq!(admit_access(&presented, Ok(before.clone())), Ok(AuthUser(before)));

    let presented = auth_middleware(later.generate_cookie(CookieJar::new()), &secret()).unwrap();
    assert_eq!(admit_access(&presented, Ok(after.clone())), Ok(AuthUser(after)));
}

#[test]
fn change_of_username_leaves_the_tokens_good() {
    let before = alice(3);
    let token = before.generate_access_token(&secret()).unwrap();
    let after = before.update_username("alice.b".to_string()).unwrap();
    let presented = auth_middleware(token.generate_cookie(CookieJar::new()), &secret()).unwrap();
    assert_eq!(admit_access(&presented, Ok(after.clone())), Ok(AuthUser(after)));
}
