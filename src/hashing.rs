//! Password hashing with Argon2, in PHC string format.

use vstd::prelude::*;

verus! {

#[verifier::external_type_specification]
#[verifier::external_body]
pub struct ExPasswordHashError(password_hash::Error);

/// Whether `password` matches the PHC string `hash` under Argon2; `None` when
/// `hash` is not a PHC string.
pub uninterp spec fn argon2_check(password: Seq<char>, hash: Seq<char>) -> Option<bool>;

/// Relies on `password_hash::SaltString::generate` with `OsRng` and
/// `argon2::Argon2::hash_password`: the PHC string of `password` under a
/// fresh random salt. The text depends on the salt; whatever it is, checking
/// `password` against it succeeds, since `verify_password` re-hashes with the
/// PHC string's own algorithm, version, parameters and salt.
#[verifier::external_body]
pub fn hash_password(password: &str) -> (r: Result<String, password_hash::Error>)
    ensures
        r matches Ok(h) ==> argon2_check(password@, h@) == Some(true),
{
    let salt = password_hash::SaltString::generate(&mut password_hash::rand_core::OsRng);
    password_hash::PasswordHasher::hash_password(&argon2::Argon2::default(), password.as_bytes(), &salt).map(
        |h| h.to_string(),
    )
}

/// Relies on `password_hash::PasswordHash::new`, which parses the PHC string,
/// and `argon2::Argon2::verify_password`, which succeeds exactly when the
/// password matches it.
#[verifier::external_body]
pub fn verify_password(password: &str, stored_hash: &str) -> (r: Result<bool, password_hash::Error>)
    ensures
        match r {
            Ok(b) => argon2_check(password@, stored_hash@) == Some(b),
            Err(_) => argon2_check(password@, stored_hash@) is None,
        },
{
    let parsed = password_hash::PasswordHash::new(stored_hash)?;
    Ok(password_hash::PasswordVerifier::verify_password(&argon2::Argon2::default(), password.as_bytes(), &parsed).is_ok())
}

} // verus!
