//! Credential issuance and session validation for a user-account service:
//! input validation, password hashing, signed claims, and the decisions that
//! admit or reject a request.

pub mod access_token;
pub mod claims;
pub mod cookies;
pub mod clock;
pub mod handlers;
pub mod hashing;
pub mod jar;
pub mod jwt;
pub mod middleware;
pub mod permission;
pub mod refresh_token;
pub mod response;
pub mod storage;
pub mod token;
pub mod user;
pub mod validation;
