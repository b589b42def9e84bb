//! What each route decides. A handler that needs the store comes in two
//! halves: one up to the call, one on the store's answer.

pub mod change_password;
pub mod change_username;
pub mod delete;
pub mod login;
pub mod new;
pub mod refresh_access_token;
pub mod refresh_refresh_token;
