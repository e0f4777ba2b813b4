//! Errors of the authentication module and how each one is answered.

use vstd::prelude::*;

verus! {

/// Why an authentication request failed.
#[derive(Debug, Clone)]
pub enum AuthError {
    UserNotFound,
    InvalidCredentials,
    InvalidEmail,
    PasswordTooShort,
    TokenExpired,
    EmailAlreadyExists,
    /// A failure of the infrastructure, with its description.
    Internal(String),
}

/// The human readable description of an error.
pub open spec fn auth_error_message(e: AuthError) -> Seq<char> {
    match e {
        AuthError::UserNotFound => "user not found"@,
        AuthError::InvalidCredentials => "invalid credentials"@,
        AuthError::InvalidEmail => "invalid email format"@,
        AuthError::PasswordTooShort => "password must be at least 8 characters"@,
        AuthError::TokenExpired => "token has expired"@,
        AuthError::EmailAlreadyExists => "email already exists"@,
        AuthError::Internal(detail) => "internal error: "@ + detail@,
    }
}

/// The HTTP status with which an error is answered.
pub open spec fn auth_error_status(e: AuthError) -> u16 {
    match e {
        AuthError::UserNotFound => 404,
        AuthError::InvalidCredentials => 401,
        AuthError::InvalidEmail => 400,
        AuthError::PasswordTooShort => 400,
        AuthError::TokenExpired => 401,
        AuthError::EmailAlreadyExists => 409,
        AuthError::Internal(_) => 500,
    }
}

/// The machine readable code carried in the body of the answer.
pub open spec fn auth_error_code(e: AuthError) -> Seq<char> {
    match e {
        AuthError::UserNotFound => "user_not_found"@,
        AuthError::InvalidCredentials => "invalid_credentials"@,
        AuthError::InvalidEmail => "invalid_email"@,
        AuthError::PasswordTooShort => "password_too_short"@,
        AuthError::TokenExpired => "token_expired"@,
        AuthError::EmailAlreadyExists => "email_already_exists"@,
        AuthError::Internal(_) => "internal_error"@,
    }
}

impl AuthError {
    /// The description of the error, as shown to operators.
    pub fn message(&self) -> (m: String)
        ensures
            m@ == auth_error_message(*self),
    {
        match self {
            AuthError::UserNotFound => String::from_str("user not found"),
            AuthError::InvalidCredentials => String::from_str("invalid credentials"),
            AuthError::InvalidEmail => String::from_str("invalid email format"),
            AuthError::PasswordTooShort => String::from_str("password must be at least 8 characters"),
            AuthError::TokenExpired => String::from_str("token has expired"),
            AuthError::EmailAlreadyExists => String::from_str("email already exists"),
            AuthError::Internal(detail) => String::from_str("internal error: ").concat(detail.as_str()),
        }
    }

    /// The HTTP status and the error code with which the error is answered.
    pub fn status_and_code(&self) -> (r: (u16, &'static str))
        ensures
            r.0 == auth_error_status(*self),
            r.1@ == auth_error_code(*self),
    {
        match self {
            AuthError::UserNotFound => (404, "user_not_found"),
            AuthError::InvalidCredentials => (401, "invalid_credentials"),
            AuthError::InvalidEmail => (400, "invalid_email"),
            AuthError::PasswordTooShort => (400, "password_too_short"),
            AuthError::TokenExpired => (401, "token_expired"),
            AuthError::EmailAlreadyExists => (409, "email_already_exists"),
            AuthError::Internal(_) => (500, "internal_error"),
        }
    }
}

/// How each authentication error is answered: a missing user with 404, bad
/// or expired credentials with 401, malformed input with 400, a taken email
/// with 409, and an infrastructure failure with 500; with these codes and
/// descriptions.
pub proof fn lemma_auth_error_answers(detail: String)
    ensures
        auth_error_status(AuthError::UserNotFound) == 404,
        auth_error_status(AuthError::InvalidCredentials) == 401,
        auth_error_status(AuthError::InvalidEmail) == 400,
        auth_error_status(AuthError::PasswordTooShort) == 400,
        auth_error_status(AuthError::TokenExpired) == 401,
        auth_error_status(AuthError::EmailAlreadyExists) == 409,
        auth_error_status(AuthError::Internal(detail)) == 500,
        auth_error_code(AuthError::UserNotFound) == "user_not_found"@,
        auth_error_code(AuthError::InvalidCredentials) == "invalid_credentials"@,
        auth_error_code(AuthError::InvalidEmail) == "invalid_email"@,
        auth_error_code(AuthError::PasswordTooShort) == "password_too_short"@,
        auth_error_code(AuthError::TokenExpired) == "token_expired"@,
        auth_error_code(AuthError::EmailAlreadyExists) == "email_already_exists"@,
        auth_error_code(AuthError::Internal(detail)) == "internal_error"@,
        auth_error_message(AuthError::UserNotFound) == "user not found"@,
        auth_error_message(AuthError::InvalidCredentials) == "invalid credentials"@,
        auth_error_message(AuthError::InvalidEmail) == "invalid email format"@,
        auth_error_message(AuthError::PasswordTooShort) == "password must be at least 8 characters"@,
        auth_error_message(AuthError::TokenExpired) == "token has expired"@,
        auth_error_message(AuthError::EmailAlreadyExists) == "email already exists"@,
        auth_error_message(AuthError::Internal(detail)) == "internal error: "@ + detail@,
{
}

} // verus!
