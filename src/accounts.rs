//! Account flows between their store round trips: login, registration,
//! password change and profile change.

use vstd::prelude::*;
use crate::api::users::{MeResponse, UsersUpdateRequest};
use crate::error::{ApiError, StoreError};
use crate::hashing::{argon2_check, hash_password, verify_password};
use crate::validation::{is_email_address, is_valid_email, is_password_suitable, password_problem};

verus! {

/// The credentials stored for a login name.
#[derive(Clone, Debug)]
pub struct UserRecord {
    pub id: i64,
    pub password_hash: String,
}

/// The profile fields that a profile change may alter, with the stored
/// password hash that authorizes it.
#[derive(Clone, Debug)]
pub struct UserUpdateFields {
    pub email: String,
    pub username: String,
    pub bio: Option<String>,
    pub password_hash: String,
}

/// The row to write for a profile change, and which fields it altered.
#[derive(Clone, Debug)]
pub struct ProfileChange {
    pub email: String,
    pub username: String,
    pub bio: Option<String>,
    pub updated_fields: Vec<String>,
}

/// `r` is the failure of an internal step.
pub open spec fn is_internal<T>(r: Result<T, ApiError>) -> bool {
    r matches Err(ApiError::Internal(_))
}

/// Logs in from the record stored for the login name: only a password that
/// matches the stored hash passes; an unknown name and a wrong password are
/// the same 401.
pub fn login_outcome(record: Result<Option<UserRecord>, StoreError>, password: &str) -> (r: Result<i64, ApiError>)
    ensures
        record is Err ==> is_internal(r),
        record matches Ok(None) ==> r == Err::<i64, ApiError>(ApiError::InvalidCredentials),
        record matches Ok(Some(u)) ==> match argon2_check(password@, u.password_hash@) {
            Some(true) => r == Ok::<i64, ApiError>(u.id),
            Some(false) => r == Err::<i64, ApiError>(ApiError::InvalidCredentials),
            None => is_internal(r),
        },
{
    match record {
        Err(_) => Err(ApiError::Internal("A database error occurred on our end".to_string())),
        Ok(None) => Err(ApiError::InvalidCredentials),
        Ok(Some(u)) => match verify_password(password, u.password_hash.as_str()) {
            Ok(true) => Ok(u.id),
            Ok(false) => Err(ApiError::InvalidCredentials),
            Err(_) => Err(ApiError::Internal("An error occurred on our end".to_string())),
        },
    }
}

/// What the uniqueness check of a registration decides.
pub open spec fn conflict_result(username_exists: bool, email_exists: bool) -> Result<(), ApiError> {
    if username_exists && email_exists {
        Err(ApiError::UserExists)
    } else if username_exists {
        Err(ApiError::UsernameTaken)
    } else if email_exists {
        Err(ApiError::EmailTaken)
    } else {
        Ok(())
    }
}

/// Prepares a validated registration from the lookup of whether its username
/// and its email are taken (409 when one is): the password hash to store.
pub fn prepare_registration(existing: Result<(bool, bool), StoreError>, password: &str) -> (r: Result<String, ApiError>)
    ensures
        existing is Err ==> is_internal(r),
        existing matches Ok(e) ==> match conflict_result(e.0, e.1) {
            Err(c) => r == Err::<String, ApiError>(c),
            Ok(_) => r is Ok || is_internal(r),
        },
        r matches Ok(h) ==> argon2_check(password@, h@) == Some(true),
{
    match existing {
        Err(_) => Err(ApiError::Internal("A database error occurred on our end".to_string())),
        Ok((username_exists, email_exists)) => {
            if username_exists && email_exists {
                Err(ApiError::UserExists)
            } else if username_exists {
                Err(ApiError::UsernameTaken)
            } else if email_exists {
                Err(ApiError::EmailTaken)
            } else {
                match hash_password(password) {
                    Ok(h) => Ok(h),
                    Err(_) => Err(ApiError::Internal("An error occurred on our end".to_string())),
                }
            }
        },
    }
}

/// Prepares a password change from the stored hash: the old password must
/// match (401 otherwise) and the new one be strong enough (400 otherwise);
/// the result is a hash of the new password, to store.
pub fn prepare_password_change(stored: Result<Option<String>, StoreError>, old_password: &str, new_password: &str) -> (r: Result<String, ApiError>)
    ensures
        stored is Err ==> is_internal(r),
        stored matches Ok(None) ==> r == Err::<String, ApiError>(ApiError::UserNotFound),
        stored matches Ok(Some(h)) ==> match argon2_check(old_password@, h@) {
            None => is_internal(r),
            Some(false) => r == Err::<String, ApiError>(ApiError::WrongOldPassword),
            Some(true) => match password_problem(new_password@) {
                Some(m) => r matches Err(ApiError::InvalidRequest(t)) && t@ == m,
                None => r is Ok || is_internal(r),
            },
        },
        r matches Ok(n) ==> argon2_check(new_password@, n@) == Some(true),
{
    match stored {
        Err(_) => Err(ApiError::Internal("Database error while querying".to_string())),
        Ok(None) => Err(ApiError::UserNotFound),
        Ok(Some(h)) => match verify_password(old_password, h.as_str()) {
            Err(_) => Err(ApiError::Internal("Error during password verification".to_string())),
            Ok(false) => Err(ApiError::WrongOldPassword),
            Ok(true) => match is_password_suitable(new_password) {
                Err(m) => Err(ApiError::InvalidRequest(m)),
                Ok(()) => match hash_password(new_password) {
                    Ok(n) => Ok(n),
                    Err(_) => Err(ApiError::Internal("Error hashing password".to_string())),
                },
            },
        },
    }
}

/// The value of an optional field after a change: the requested one, else
/// the current one.
pub open spec fn changed_text(requested: Option<String>, current: String) -> Seq<char> {
    match requested {
        Some(v) => v@,
        None => current@,
    }
}

/// The view of an optional text.
pub open spec fn opt_view(o: Option<String>) -> Option<Seq<char>> {
    match o {
        Some(v) => Some(v@),
        None => None,
    }
}

/// The names of the fields that a profile change alters: a field counts when
/// it is given and differs from the current value.
pub open spec fn altered_fields(req: UsersUpdateRequest, cur: UserUpdateFields) -> Seq<Seq<char>> {
    let e: Seq<Seq<char>> = if req.email is Some && req.email->0@ != cur.email@ {
        seq!["email"@]
    } else {
        seq![]
    };
    let u: Seq<Seq<char>> = if req.username is Some && req.username->0@ != cur.username@ {
        seq!["username"@]
    } else {
        seq![]
    };
    let b: Seq<Seq<char>> = if req.bio is Some && opt_view(req.bio) != opt_view(cur.bio) {
        seq!["bio"@]
    } else {
        seq![]
    };
    e + u + b
}

fn optional_text_eq(a: &Option<String>, b: &Option<String>) -> (r: bool)
    ensures
        r == (opt_view(*a) == opt_view(*b)),
{
    match (a, b) {
        (Some(x), Some(y)) => *x == *y,
        (None, None) => true,
        _ => false,
    }
}

/// Prepares a profile change from the stored profile: the current password
/// must match (401 otherwise), and the resulting email must have the accepted
/// shape (400 otherwise). Absent fields keep their current value.
pub fn prepare_profile_change(current: Result<Option<UserUpdateFields>, StoreError>, req: &UsersUpdateRequest) -> (r: Result<ProfileChange, ApiError>)
    ensures
        current is Err ==> is_internal(r),
        current matches Ok(None) ==> r == Err::<ProfileChange, ApiError>(ApiError::UserNotFound),
        current matches Ok(Some(cur)) ==> match argon2_check(req.password@, cur.password_hash@) {
            None => is_internal(r),
            Some(false) => r == Err::<ProfileChange, ApiError>(ApiError::WrongPassword),
            Some(true) => if !is_email_address(changed_text(req.email, cur.email)) {
                r matches Err(ApiError::InvalidRequest(t)) && t@ == "Email format is invalid"@
            } else {
                r matches Ok(p) && p.email@ == changed_text(req.email, cur.email) && p.username@
                    == changed_text(req.username, cur.username) && opt_view(p.bio) == (
                if req.bio is Some {
                    opt_view(req.bio)
                } else {
                    opt_view(cur.bio)
                }) && p.updated_fields@.map_values(|f: String| f@) == altered_fields(*req, cur)
            },
        },
{
    let cur = match current {
        Err(_) => {
            return Err(ApiError::Internal("Database error while querying".to_string()));
        },
        Ok(None) => {
            return Err(ApiError::UserNotFound);
        },
        Ok(Some(c)) => c,
    };
    match verify_password(req.password.as_str(), cur.password_hash.as_str()) {
        Err(_) => {
            return Err(ApiError::Internal("Error during password verification".to_string()));
        },
        Ok(false) => {
            return Err(ApiError::WrongPassword);
        },
        Ok(true) => {},
    }
    let email = match &req.email {
        Some(e) => e.clone(),
        None => cur.email.clone(),
    };
    if !is_valid_email(email.as_str()) {
        return Err(ApiError::InvalidRequest("Email format is invalid".to_owned()));
    }
    let username = match &req.username {
        Some(u) => u.clone(),
        None => cur.username.clone(),
    };
    let bio = match &req.bio {
        Some(b) => Some(b.clone()),
        None => cur.bio.clone(),
    };
    let mut updated_fields: Vec<String> = Vec::new();
    if let Some(e) = &req.email {
        if !(*e == cur.email) {
            updated_fields.push("email".to_owned());
        }
    }
    if let Some(u) = &req.username {
        if !(*u == cur.username) {
            updated_fields.push("username".to_owned());
        }
    }
    if req.bio.is_some() && !optional_text_eq(&req.bio, &cur.bio) {
        updated_fields.push("bio".to_owned());
    }
    assert(updated_fields@.map_values(|f: String| f@) =~= altered_fields(*req, cur));
    Ok(ProfileChange { email, username, bio, updated_fields })
}

/// The answer to a profile read: 404 when the account is not there.
pub fn profile_outcome(row: Result<Option<MeResponse>, StoreError>) -> (r: Result<MeResponse, ApiError>)
    ensures
        row matches Ok(Some(p)) ==> r == Ok::<MeResponse, ApiError>(p),
        row matches Ok(None) ==> r == Err::<MeResponse, ApiError>(ApiError::UserNotFound),
        row is Err ==> is_internal(r),
{
    match row {
        Ok(Some(p)) => Ok(p),
        Ok(None) => Err(ApiError::UserNotFound),
        Err(_) => Err(ApiError::Internal("A database error occurred".to_string())),
    }
}

} // verus!
