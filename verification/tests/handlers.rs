use messenger_lib::access_token::AccessToken;
use messenger_lib::handlers::{
    change_password, change_username, delete, login, new, refresh_access_token,
    refresh_refresh_token,
};
use messenger_lib::hashing::{hash_password, HashError};
use messenger_lib::jar::{Cookie, CookieJar};
use messenger_lib::middleware::AuthUser;
use messenger_lib::permission::Permission;
use messenger_lib::refresh_token::RefreshToken;
use messenger_lib::response::{Rejection, Status};
use messenger_lib::storage::StorageError;
use messenger_lib::token::Token;
use messenger_lib::user::{UpdateError, User};

fn secret() -> String {
    "a secret that nobody knows".to_string()
}

fn stored(password_hash: &str, tokenversion: u64) -> User {
    User::from_parts(
        0xa11ce,
        "alice".to_string(),
        password_hash.to_string(),
        "a@x.com".to_string(),
        Permission::USER,
        tokenversion,
        1_700_000_000,
    )
}

fn alice_with(password: &str, tokenversion: u64) -> User {
    stored(&hash_password(&password.to_string()).unwrap(), tokenversion)
}

fn registration(username: &str, password: &str, email: &str) -> new::Body {
    new::Body {
        username: username.to_string(),
        password: password.to_string(),
        email: email.to_string(),
    }
}

fn credentials(username: &str, password: &str) -> login::Body {
    login::Body { username: username.to_string(), password: password.to_string() }
}

fn session_cookie() -> Cookie {
    Cookie { name: "session".to_string(), value: "s".to_string(), http_only: false, same_site: None }
}

#[test]
fn registration_makes_an_account() {
    let user = new::create_new_user(registration("alice", "Abcdef1$", "a@x.com")).unwrap();
    assert_eq!(user.username(), "alice");
    assert_eq!(user.email(), "a@x.com");
    assert_eq!(user.permission(), Permission::USER);
    assert_eq!(user.tokenversion(), 0);
    assert_ne!(user.password_hash(), "Abcdef1$");
    assert_eq!(user.verify_password("Abcdef1$".to_string()), Ok(true));
}

#[test]
fn registration_checks_the_username_before_the_password() {
    assert_eq!(
        new::create_new_user(registration("al", "Abcdef1$", "a@x.com")),
        Err(Rejection::BadUsername)
    );
    assert_eq!(
        new::create_new_user(registration("al", "abc", "a@x.com")),
        Err(Rejection::BadUsername)
    );
    assert_eq!(
        new::create_new_user(registration("alice", "abcdefgh", "a@x.com")),
        Err(Rejection::BadPassword)
    );
}

#[test]
fn refused_insert_is_answered_by_its_cause() {
    let email = StorageError::Database("UNIQUE constraint failed: users.email".to_string());
    let username = StorageError::Database("UNIQUE constraint failed: users.username".to_string());
    let other = StorageError::Database("disk I/O error".to_string());
    assert_eq!(new::insert_rejection(&email), Rejection::EmailTaken);
    assert_eq!(new::insert_rejection(&username), Rejection::UsernameTaken);
    assert_eq!(new::insert_rejection(&other), Rejection::WriteFailed);
    assert_eq!(new::insert_rejection(&StorageError::Other), Rejection::WriteFailed);
    assert_eq!(new::insert_rejection(&StorageError::RowNotFound), Rejection::WriteFailed);
    let user = stored("hash", 0);
    assert_eq!(
        new::after_insert(&user, Err(username), CookieJar::new(), &secret()),
        Err(Rejection::UsernameTaken)
    );
    assert_eq!(
        new::after_insert(&user, Err(email), CookieJar::new(), &secret()),
        Err(Rejection::EmailTaken)
    );
}

#[test]
fn stored_registration_hands_out_both_cookies() {
    let user = stored("hash", 0);
    let jar = CookieJar::new().add(session_cookie());
    let (status, filled) = new::after_insert(&user, Ok(()), jar, &secret()).unwrap();
    assert_eq!(status, Status::Created);
    assert_eq!(filled.cookies.len(), 3);
    assert_eq!(filled.cookies[0], session_cookie());
    assert_eq!(filled.cookies[1].name, "access_token");
    assert_eq!(filled.cookies[2].name, "refresh_token");
    assert!(filled.cookies[1].http_only && filled.cookies[2].http_only);
    let access = AccessToken::from_jar(filled.clone(), &secret()).unwrap();
    let refresh = RefreshToken::from_jar(filled, &secret()).unwrap();
    assert_eq!(access.claims.sub, user.uuid());
    assert_eq!(access.claims.tokenversion, 0);
    assert_eq!(access.claims.exp, access.claims.iat + 1_200);
    assert_eq!(refresh.claims.sub, user.uuid());
    assert_eq!(refresh.claims.exp, refresh.claims.iat + 31_536_000);
}

#[test]
fn login_hands_out_both_cookies() {
    let user = alice_with("Abcdef1$", 2);
    let (status, filled) =
        login::login(Ok(user.clone()), credentials("alice", "Abcdef1$"), CookieJar::new(), &secret())
            .unwrap();
    assert_eq!(status, Status::Success);
    assert_eq!(filled.cookies.len(), 2);
    let access = AccessToken::from_jar(filled.clone(), &secret()).unwrap();
    let refresh = RefreshToken::from_jar(filled, &secret()).unwrap();
    assert_eq!(access.claims.sub, user.uuid());
    assert_eq!(access.claims.tokenversion, 2);
    assert_eq!(refresh.claims.tokenversion, 2);
}

#[test]
fn login_does_not_tell_an_unknown_user_from_a_wrong_password() {
    let user = alice_with("Abcdef1$", 2);
    let wrong = login::login(Ok(user), credentials("alice", "wrong"), CookieJar::new(), &secret());
    let unknown = login::login(
        Err(StorageError::RowNotFound),
        credentials("nobody", "wrong"),
        CookieJar::new(),
        &secret(),
    );
    assert_eq!(wrong, Err(Rejection::InvalidCredentials));
    assert_eq!(unknown, wrong);
}

#[test]
fn login_against_a_hash_that_cannot_be_read_is_a_fault_of_the_server() {
    let r = login::login(
        Ok(stored("garbage", 0)),
        credentials("alice", "Abcdef1$"),
        CookieJar::new(),
        &secret(),
    );
    assert_eq!(r, Err(Rejection::VerifyFailed));
    assert_eq!(Rejection::VerifyFailed.status(), Status::InternalServerError);
}

#[test]
fn removal_is_confirmed_by_the_password() {
    assert_eq!(delete::confirm(Ok(true)), Ok(()));
    assert_eq!(delete::confirm(Ok(false)), Err(Rejection::WrongPassword));
    assert_eq!(delete::confirm(Err(HashError::Unreadable)), Err(Rejection::VerifyFailed));
    let user = alice_with("Abcdef1$", 0);
    assert_eq!(delete::delete_user(&user, delete::Body { password: "Abcdef1$".to_string() }), Ok(()));
    assert_eq!(
        delete::delete_user(&user, delete::Body { password: "wrong".to_string() }),
        Err(Rejection::WrongPassword)
    );
    assert_eq!(
        delete::delete_user(&stored("garbage", 0), delete::Body { password: "x".to_string() }),
        Err(Rejection::VerifyFailed)
    );
}

#[test]
fn removal_ends_with_the_answer_of_the_store() {
    assert_eq!(delete::after_delete(Ok(())), Ok(Status::Success));
    assert_eq!(delete::after_delete(Err(StorageError::Other)), Err(Rejection::DeleteFailed));
    assert_eq!(delete::after_delete(Err(StorageError::RowNotFound)), Err(Rejection::DeleteFailed));
}

#[test]
fn change_of_password_is_decided_by_the_two_verdicts() {
    let unreadable = Err(HashError::Unreadable);
    assert_eq!(change_password::check(Ok(true), Ok(false)), Ok(()));
    assert_eq!(change_password::check(Ok(true), unreadable), Ok(()));
    assert_eq!(change_password::check(Ok(true), Ok(true)), Err(Rejection::SamePassword));
    assert_eq!(change_password::check(Ok(false), Ok(false)), Err(Rejection::WrongPassword));
    assert_eq!(change_password::check(Ok(false), Ok(true)), Err(Rejection::WrongPassword));
    assert_eq!(change_password::check(unreadable, Ok(false)), Err(Rejection::VerifyOldFailed));
    assert_eq!(change_password::check(unreadable, Ok(true)), Err(Rejection::VerifyOldFailed));
}

#[test]
fn refused_change_is_answered_by_its_cause() {
    assert_eq!(change_password::update_rejection(UpdateError::Invalid), Rejection::BadValue);
    assert_eq!(change_password::update_rejection(UpdateError::Unchanged), Rejection::SameUsername);
    assert_eq!(change_password::update_rejection(UpdateError::HashFailed), Rejection::UpdateFailed);
}

#[test]
fn change_of_password_gives_the_account_to_store() {
    let user = alice_with("Abcdef1$", 2);
    let body = change_password::Body {
        old_password: "Abcdef1$".to_string(),
        new_password: "Ghijkl2?".to_string(),
    };
    let next = change_password::change_password(&user, body).unwrap();
    assert_eq!(next.tokenversion(), 3);
    assert_eq!(next.uuid(), user.uuid());
    assert_eq!(next.username(), user.username());
    assert_eq!(next.verify_password("Ghijkl2?".to_string()), Ok(true));
    assert_eq!(next.verify_password("Abcdef1$".to_string()), Ok(false));
}

#[test]
fn change_of_password_needs_the_old_password() {
    let user = alice_with("Abcdef1$", 2);
    let body = change_password::Body {
        old_password: "wrong".to_string(),
        new_password: "Ghijkl2?".to_string(),
    };
    assert_eq!(change_password::change_password(&user, body), Err(Rejection::WrongPassword));
    let body = change_password::Body {
        old_password: "Abcdef1$".to_string(),
        new_password: "Ghijkl2?".to_string(),
    };
    assert_eq!(
        change_password::change_password(&stored("garbage", 2), body),
        Err(Rejection::VerifyOldFailed)
    );
}

#[test]
fn change_of_password_refuses_the_old_password_as_the_new_one() {
    let user = alice_with("Abcdef1$", 2);
    let body = change_password::Body {
        old_password: "Abcdef1$".to_string(),
        new_password: "Abcdef1$".to_string(),
    };
    assert_eq!(change_password::change_password(&user, body), Err(Rejection::SamePassword));
    assert_eq!(Rejection::SamePassword.status(), Status::BadRequest);
}

#[test]
fn change_of_password_refuses_a_new_password_of_the_wrong_shape() {
    let user = alice_with("Abcdef1$", 2);
    let body = change_password::Body {
        old_password: "Abcdef1$".to_string(),
        new_password: "abcdefgh".to_string(),
    };
    assert_eq!(change_password::change_password(&user, body), Err(Rejection::BadValue));
}

#[test]
fn change_ends_with_the_answer_of_the_store() {
    assert_eq!(change_password::after_update(Ok(())), Ok(Status::Success));
    assert_eq!(
        change_password::after_update(Err(StorageError::Other)),
        Err(Rejection::UpdateFailed)
    );
    assert_eq!(
        change_password::after_update(Err(StorageError::Database("locked".to_string()))),
        Err(Rejection::UpdateFailed)
    );
}

#[test]
fn change_of_username_gives_the_account_to_store() {
    let user = stored("hash", 2);
    let body = change_username::Body { username: "alice.b".to_string() };
    let next = change_username::change_username(&user, body).unwrap();
    assert_eq!(next.username(), "alice.b");
    assert_eq!(next.tokenversion(), 2);
    assert_eq!(next.password_hash(), "hash");
}

#[test]
fn change_of_username_refuses_the_old_name_and_a_bad_one() {
    let user = stored("hash", 2);
    assert_eq!(
        change_username::change_username(&user, change_username::Body { username: "alice".to_string() }),
        Err(Rejection::SameUsername)
    );
    assert_eq!(
        change_username::change_username(&user, change_username::Body { username: "al".to_string() }),
        Err(Rejection::BadValue)
    );
    assert_eq!(
        change_username::change_username(&user, change_username::Body { username: "a b c".to_string() }),
        Err(Rejection::BadValue)
    );
}

#[test]
fn new_access_token_for_an_admitted_account() {
    let admitted = AuthUser(stored("hash", 5));
    let jar = CookieJar::new().add(session_cookie());
    let (status, filled) =
        refresh_access_token::refresh_access_token(&admitted, jar, &secret()).unwrap();
    assert_eq!(status, Status::Success);
    assert_eq!(filled.cookies.len(), 2);
    assert_eq!(filled.cookies[0], session_cookie());
    let token = AccessToken::from_jar(filled.clone(), &secret()).unwrap();
    assert_eq!(token.claims.sub, 0xa11ce);
    assert_eq!(token.claims.tokenversion, 5);
    assert_eq!(token.claims.exp, token.claims.iat + 1_200);
    assert_eq!(RefreshToken::from_jar(filled, &secret()), None);
}

#[test]
fn new_refresh_token_for_a_username_and_its_password() {
    let user = alice_with("Abcdef1$", 5);
    let body = refresh_refresh_token::Body {
        username: "alice".to_string(),
        password: "Abcdef1$".to_string(),
    };
    let (status, filled) =
        refresh_refresh_token::refresh_refresh_token(Ok(user), body, CookieJar::new(), &secret())
            .unwrap();
    assert_eq!(status, Status::Success);
    assert_eq!(filled.cookies.len(), 1);
    let token = RefreshToken::from_jar(filled.clone(), &secret()).unwrap();
    assert_eq!(token.claims.tokenversion, 5);
    assert_eq!(token.claims.exp, token.claims.iat + 31_536_000);
    assert_eq!(token.decode_literal(&secret()), Ok(token.claims));
    assert_eq!(AccessToken::from_jar(filled, &secret()), None);
}

#[test]
fn new_refresh_token_needs_the_password() {
    let user = alice_with("Abcdef1$", 5);
    let body = refresh_refresh_token::Body {
        username: "alice".to_string(),
        password: "wrong".to_string(),
    };
    assert_eq!(
        refresh_refresh_token::refresh_refresh_token(Ok(user), body.clone(), CookieJar::new(), &secret()),
        Err(Rejection::InvalidCredentials)
    );
    assert_eq!(
        refresh_refresh_token::refresh_refresh_token(
            Err(StorageError::RowNotFound),
            body,
            CookieJar::new(),
            &secret()
        ),
        Err(Rejection::InvalidCredentials)
    );
}

#[test]
fn registration_never_stores_the_password_itself() {
    let user = new::create_new_user(registration("alice", "Abcdef1$", "a@x.com")).unwrap();
    assert_ne!(user.password_hash(), "Abcdef1$");
    assert!(user.password_hash().starts_with("$argon2id$v=19$m=19456,t=2,p=1$"));
    assert!(user.timestamp() <= messenger_lib::clock::CLOCK_MAX);
}

#[test]
fn change_of_password_at_the_last_token_version() {
    let user = alice_with("Abcdef1$", u64::MAX);
    let wrong = change_password::Body {
        old_password: "wrong".to_string(),
        new_password: "Ghijkl2?".to_string(),
    };
    assert_eq!(change_password::change_password(&user, wrong), Err(Rejection::WrongPassword));
    let same = change_password::Body {
        old_password: "Abcdef1$".to_string(),
        new_password: "Abcdef1$".to_string(),
    };
    assert_eq!(change_password::change_password(&user, same), Err(Rejection::SamePassword));
    let bad = change_password::Body {
        old_password: "Abcdef1$".to_string(),
        new_password: "abcdefgh".to_string(),
    };
    assert_eq!(change_password::change_password(&user, bad), Err(Rejection::BadValue));
    let good = change_password::Body {
        old_password: "Abcdef1$".to_string(),
        new_password: "Ghijkl2?".to_string(),
    };
    assert_eq!(change_password::change_password(&user, good), Err(Rejection::UpdateFailed));
    let before = alice_with("Abcdef1$", u64::MAX - 1);
    let good = change_password::Body {
        old_password: "Abcdef1$".to_string(),
        new_password: "Ghijkl2?".to_string(),
    };
    assert_eq!(change_password::change_password(&before, good).unwrap().tokenversion(), u64::MAX);
}
