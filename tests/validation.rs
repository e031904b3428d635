use realtime_chat::api::auth::{ApiAuthLoginRequest, AuthRegisterRequest, RegisterRequest};
use realtime_chat::validation::{is_password_suitable, is_valid_email};

fn login(person: &str, password: &str, is_email: bool) -> ApiAuthLoginRequest {
    ApiAuthLoginRequest { person: person.to_string(), password: password.to_string(), is_email }
}

#[test]
fn email_shapes() {
    assert!(is_valid_email("ann@example.com"));
    assert!(is_valid_email("a.b+c_d%e-f@mail.example.co"));
    assert!(!is_valid_email("ann@example"));
    assert!(!is_valid_email("@example.com"));
    assert!(!is_valid_email("ann@.c"));
    assert!(!is_valid_email("ann@example.c"));
    assert!(!is_valid_email("ann@example.c0m"));
    assert!(!is_valid_email("ann@@example.com"));
    assert!(!is_valid_email("ann@example.com\n"));
    assert!(!is_valid_email(""));
}

#[test]
fn password_strength() {
    assert_eq!(is_password_suitable("Abc123"), Ok(()));
    assert_eq!(is_password_suitable("1aBcde"), Ok(()));
    assert_eq!(is_password_suitable("Ab1"), Err("Password must be at least 6 characters".to_string()));
    assert_eq!(
        is_password_suitable("abcdef1"),
        Err("Password must contain at least one uppercase letter, one lowercase letter, and one digit".to_string())
    );
    assert!(is_password_suitable("ABCDEFa").is_err());
    assert!(is_password_suitable("").is_err());
}

#[test]
fn login_validation() {
    assert_eq!(login("ann", "pw", false).validate(), Ok(()));
    assert_eq!(login("   ", "pw", false).validate(), Err("Username or email is required".to_string()));
    assert_eq!(login("ann", "pw", true).validate(), Err("Invalid email format".to_string()));
    assert_eq!(login("ann@example.com", "pw", true).validate(), Ok(()));
    assert_eq!(login("ann", "", false).validate(), Err("Password is required".to_string()));
}

#[test]
fn registration_validation() {
    let ok = AuthRegisterRequest {
        username: "ann".to_string(),
        email: "ann@example.com".to_string(),
        password: "Secret1".to_string(),
        bio: None,
    };
    assert_eq!(ok.validate(), Ok(()));
    let bad_email = AuthRegisterRequest { email: "nope".to_string(), ..ok.clone() };
    assert_eq!(bad_email.validate(), Err("Email format is invalid".to_string()));
    let weak = RegisterRequest { username: "ann".to_string(), email: "ann@example.com".to_string(), password: "short".to_string() };
    assert_eq!(weak.validate(), Err("Password must be at least 6 characters".to_string()));
}
