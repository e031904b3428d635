//! Profile bodies.

use vstd::prelude::*;

verus! {

/// The caller's own profile.
#[derive(Clone, Debug)]
pub struct MeResponse {
    pub email: String,
    pub username: String,
    pub bio: Option<String>,
    pub created_at: i128,
    pub updated_at: i128,
}

/// A partial profile change; `password` is the current password.
#[derive(Clone, Debug)]
pub struct UsersUpdateRequest {
    pub email: Option<String>,
    pub username: Option<String>,
    pub bio: Option<String>,
    pub password: String,
}

/// The names of the fields that a profile change altered.
#[derive(Clone, Debug)]
pub struct UsersUpdateResponse {
    pub updated_fields: Vec<String>,
}

/// A password change.
#[derive(Clone, Debug)]
pub struct UpdatePasswordRequest {
    pub old_password: String,
    pub new_password: String,
}

/// The answer to a password change.
#[derive(Clone, Debug)]
pub struct UpdatePasswordResponse {
    pub message: String,
}

} // verus!
