use mentem_api::auth::domain::{Credentials, Email, Password, User};
use mentem_api::auth::error::AuthError;
use mentem_api::auth::extractor::bearer_token;
use mentem_api::auth::handler::UserResponse;
use mentem_api::auth::repository::insert_error;

#[test]
fn email_accepts_text_with_at_sign() {
    let email = Email::new("user@example.com".to_string()).unwrap();
    assert_eq!(email.as_str(), "user@example.com");
}

#[test]
fn email_rejects_empty_text() {
    assert!(matches!(Email::new(String::new()), Err(AuthError::InvalidEmail)));
}

#[test]
fn email_rejects_text_without_at_sign() {
    assert!(matches!(Email::new("user.example.com".to_string()), Err(AuthError::InvalidEmail)));
}

#[test]
fn email_accepts_bare_at_sign() {
    assert!(Email::new("@".to_string()).is_ok());
}

#[test]
fn password_accepts_eight_bytes() {
    let password = Password::new("12345678".to_string()).unwrap();
    assert_eq!(password.as_str(), "12345678");
}

#[test]
fn password_rejects_seven_bytes() {
    assert!(matches!(Password::new("1234567".to_string()), Err(AuthError::PasswordTooShort)));
}

#[test]
fn password_length_counts_utf8_bytes() {
    // four characters, eight bytes
    assert!(Password::new("éééé".to_string()).is_ok());
    // three characters, six bytes
    assert!(matches!(Password::new("ééé".to_string()), Err(AuthError::PasswordTooShort)));
}

#[test]
fn credentials_check_email_before_password() {
    let r = Credentials::new("nope".to_string(), "short".to_string());
    assert!(matches!(r, Err(AuthError::InvalidEmail)));
    let r = Credentials::new("a@b.c".to_string(), "short".to_string());
    assert!(matches!(r, Err(AuthError::PasswordTooShort)));
    let c = Credentials::new("a@b.c".to_string(), "long enough".to_string()).unwrap();
    assert_eq!(c.email.as_str(), "a@b.c");
    assert_eq!(c.password.as_str(), "long enough");
}

#[test]
fn auth_errors_answer_with_status_and_code() {
    let cases: Vec<(AuthError, u16, &str, &str)> = vec![
        (AuthError::UserNotFound, 404, "user_not_found", "user not found"),
        (AuthError::InvalidCredentials, 401, "invalid_credentials", "invalid credentials"),
        (AuthError::InvalidEmail, 400, "invalid_email", "invalid email format"),
        (AuthError::PasswordTooShort, 400, "password_too_short", "password must be at least 8 characters"),
        (AuthError::TokenExpired, 401, "token_expired", "token has expired"),
        (AuthError::EmailAlreadyExists, 409, "email_already_exists", "email already exists"),
        (AuthError::Internal("db down".to_string()), 500, "internal_error", "internal error: db down"),
    ];
    for (e, status, code, message) in cases {
        assert_eq!(e.status_and_code(), (status, code));
        assert_eq!(e.message(), message);
    }
}

#[test]
fn unique_violation_means_email_taken() {
    assert!(matches!(insert_error(Some("23505"), "dup".to_string()), AuthError::EmailAlreadyExists));
}

#[test]
fn other_insert_failures_are_internal() {
    match insert_error(Some("23503"), "fk".to_string()) {
        AuthError::Internal(d) => assert_eq!(d, "fk"),
        other => panic!("unexpected {:?}", other),
    }
    match insert_error(None, "io".to_string()) {
        AuthError::Internal(d) => assert_eq!(d, "io"),
        other => panic!("unexpected {:?}", other),
    }
}

#[test]
fn bearer_token_is_taken_after_scheme() {
    assert_eq!(bearer_token(Some("Bearer abc.def.ghi")).unwrap(), "abc.def.ghi");
    assert_eq!(bearer_token(Some("Bearer ")).unwrap(), "");
}

#[test]
fn bearer_token_refuses_missing_or_other_schemes() {
    assert!(matches!(bearer_token(None), Err(AuthError::InvalidCredentials)));
    assert!(matches!(bearer_token(Some("bearer abc")), Err(AuthError::InvalidCredentials)));
    assert!(matches!(bearer_token(Some("Basic abc")), Err(AuthError::InvalidCredentials)));
    assert!(matches!(bearer_token(Some("Bearer")), Err(AuthError::InvalidCredentials)));
}

#[test]
fn user_response_drops_password_hash() {
    let user = User { id: 7, email: "a@b.c".to_string(), password_hash: "secret".to_string() };
    let response = UserResponse::from(user);
    assert_eq!(response.id, 7);
    assert_eq!(response.email, "a@b.c");
}
