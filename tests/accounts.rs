use realtime_chat::accounts::{
    login_outcome, prepare_password_change, prepare_profile_change, prepare_registration, profile_outcome,
    UserRecord, UserUpdateFields,
};
use realtime_chat::api::users::UsersUpdateRequest;
use realtime_chat::error::{ApiError, StoreError};
use realtime_chat::hashing::{hash_password, verify_password};
use realtime_chat::session::{session_user, Claims, SESSION_SECONDS};

#[test]
fn hash_then_verify() {
    let h = hash_password("Secret1").unwrap();
    assert_ne!(h, "Secret1");
    assert_eq!(verify_password("Secret1", &h), Ok(true));
    assert_eq!(verify_password("Secret2", &h), Ok(false));
    assert!(verify_password("Secret1", "not a hash").is_err());
}

#[test]
fn login_checks_the_password() {
    let h = hash_password("Secret1").unwrap();
    let rec = || Ok(Some(UserRecord { id: 11, password_hash: h.clone() }));
    assert_eq!(login_outcome(rec(), "Secret1"), Ok(11));
    assert_eq!(login_outcome(rec(), "wrong"), Err(ApiError::InvalidCredentials));
    assert_eq!(ApiError::InvalidCredentials.message(), "Invalid credentials");
    assert_eq!(ApiError::InvalidCredentials.status(), 401);
    assert_eq!(login_outcome(Ok(None), "Secret1"), Err(ApiError::InvalidCredentials));
    assert_eq!(login_outcome(Err(StoreError), "Secret1").unwrap_err().status(), 500);
    let broken = Ok(Some(UserRecord { id: 11, password_hash: "garbage".to_string() }));
    assert_eq!(login_outcome(broken, "Secret1").unwrap_err().status(), 500);
}

#[test]
fn registration_conflicts() {
    assert_eq!(prepare_registration(Ok((true, true)), "Secret1"), Err(ApiError::UserExists));
    assert_eq!(ApiError::UserExists.message(), "This user already exists.");
    assert_eq!(ApiError::UsernameTaken.message(), "Username already exists");
    assert_eq!(ApiError::EmailTaken.message(), "Email already exists");
    assert_eq!(prepare_registration(Ok((true, false)), "Secret1"), Err(ApiError::UsernameTaken));
    assert_eq!(prepare_registration(Ok((false, true)), "Secret1").unwrap_err().status(), 409);
    assert_eq!(prepare_registration(Err(StoreError), "Secret1").unwrap_err().status(), 500);
    let h = prepare_registration(Ok((false, false)), "Secret1").unwrap();
    assert_eq!(verify_password("Secret1", &h), Ok(true));
}

#[test]
fn password_change() {
    let h = hash_password("Secret1").unwrap();
    let e = prepare_password_change(Ok(Some(h.clone())), "nope", "Better2").unwrap_err();
    assert_eq!(e, ApiError::WrongOldPassword);
    assert_eq!(e.status(), 401);
    assert_eq!(e.message(), "Invalid old password");
    assert_eq!(
        prepare_password_change(Ok(Some(h.clone())), "Secret1", "weak"),
        Err(ApiError::InvalidRequest("Password must be at least 6 characters".to_string()))
    );
    assert_eq!(prepare_password_change(Ok(None), "Secret1", "Better2"), Err(ApiError::UserNotFound));
    assert_eq!(prepare_password_change(Err(StoreError), "a", "b").unwrap_err().status(), 500);
}

#[test]
fn password_change_hashes_new_password() {
    let h = hash_password("Secret1").unwrap();
    let n = prepare_password_change(Ok(Some(h)), "Secret1", "Better2").unwrap();
    assert_eq!(verify_password("Better2", &n), Ok(true));
}

#[test]
fn profile_change() {
    let h = hash_password("Secret1").unwrap();
    let cur = UserUpdateFields {
        email: "ann@example.com".to_string(),
        username: "ann".to_string(),
        bio: None,
        password_hash: h,
    };
    let req = UsersUpdateRequest {
        email: Some("ann@example.com".to_string()),
        username: Some("annie".to_string()),
        bio: Some("hello".to_string()),
        password: "Secret1".to_string(),
    };
    let c = prepare_profile_change(Ok(Some(cur.clone())), &req).unwrap();
    assert_eq!(c.email, "ann@example.com");
    assert_eq!(c.username, "annie");
    assert_eq!(c.bio.as_deref(), Some("hello"));
    assert_eq!(c.updated_fields, vec!["username".to_string(), "bio".to_string()]);
    let bad = UsersUpdateRequest { email: Some("nope".to_string()), ..req.clone() };
    assert_eq!(prepare_profile_change(Ok(Some(cur.clone())), &bad).unwrap_err().status(), 400);
    let wrong = UsersUpdateRequest { password: "x".to_string(), ..req.clone() };
    let e = prepare_profile_change(Ok(Some(cur)), &wrong).unwrap_err();
    assert_eq!(e, ApiError::WrongPassword);
    assert_eq!(e.message(), "Invalid password");
    assert_eq!(prepare_profile_change(Ok(None), &req).unwrap_err(), ApiError::UserNotFound);
}

#[test]
fn profile_read() {
    assert_eq!(profile_outcome(Ok(None)).unwrap_err().status(), 404);
    assert_eq!(profile_outcome(Err(StoreError)).unwrap_err().status(), 500);
}

#[test]
fn session_claims_last_seven_days() {
    let c = Claims::issued("12".to_string(), 1_000);
    assert_eq!(c.sub, "12");
    assert_eq!(c.iat, 1_000);
    assert_eq!(c.exp, 1_000 + SESSION_SECONDS);
    assert_eq!(SESSION_SECONDS, 7 * 24 * 60 * 60);
}

#[test]
fn subject_names_the_user() {
    let claims = |s: &str| Claims::issued(s.to_string(), 0);
    assert_eq!(claims("12").user_id(), Some(12));
    assert_eq!(claims("+12").user_id(), Some(12));
    assert_eq!(claims("-12").user_id(), Some(-12));
    assert_eq!(claims("9223372036854775807").user_id(), Some(i64::MAX));
    assert_eq!(claims("-9223372036854775808").user_id(), Some(i64::MIN));
    assert_eq!(claims("9223372036854775808").user_id(), None);
    assert_eq!(claims("99999999999999999999999").user_id(), None);
    assert_eq!(claims("").user_id(), None);
    assert_eq!(claims("-").user_id(), None);
    assert_eq!(claims("12a").user_id(), None);
    assert_eq!(claims(" 12").user_id(), None);
}

#[test]
fn session_cookie_attributes() {
    assert_eq!(
        realtime_chat::session::build_cookie("abc.def"),
        "session_token=abc.def; HttpOnly; SameSite=Lax; Path=/; Max-Age=604800"
    );
}

#[test]
fn session_gate() {
    assert_eq!(session_user(None), Err(ApiError::Unauthenticated));
    assert_eq!(session_user(None).unwrap_err().status(), 401);
    assert_eq!(session_user(Some(Claims::issued("42".to_string(), 5))), Ok(42));
    assert_eq!(session_user(Some(Claims::issued("abc".to_string(), 5))), Err(ApiError::Unauthenticated));
}
