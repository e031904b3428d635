//! Login and registration bodies.

use vstd::prelude::*;

verus! {

/// Login: a username or an email, and a password.
#[derive(Clone, Debug)]
pub struct ApiAuthLoginRequest {
    /// The username, or the email when `is_email` is set.
    pub person: String,
    pub password: String,
    pub is_email: bool,
}

/// The answer to a login.
#[derive(Clone, Debug)]
pub struct ApiAuthLoginResponse {
    pub ok: bool,
    pub message: String,
    pub id: Option<i64>,
}

/// Registration: a new account's username, email, password and bio.
#[derive(Clone, Debug)]
pub struct AuthRegisterRequest {
    pub username: String,
    pub email: String,
    pub password: String,
    pub bio: Option<String>,
}

/// The answer to a login or a registration.
#[derive(Clone, Debug)]
pub struct LoginAndRegisterResponse {
    pub ok: bool,
    pub message: String,
    pub id: Option<i64>,
}

/// Registration without a bio.
#[derive(Clone, Debug)]
pub struct RegisterRequest {
    pub username: String,
    pub email: String,
    pub password: String,
}

/// The answer to a registration without a bio.
#[derive(Clone, Debug)]
pub struct RegisterResponse {
    pub ok: bool,
    pub message: String,
    pub id: Option<i64>,
}

} // verus!
