//! The values that authentication works with, and the rules they obey.

use vstd::prelude::*;
use vstd::utf8::encode_utf8;

use super::error::AuthError;
use crate::text::contains_char;

verus! {

/// The identifier of a user: the 128 bits of its UUID.
pub type UserId = u128;

/// The shortest password accepted, in bytes of its UTF-8 encoding.
pub const MIN_PASSWORD_LEN: usize = 8;

/// What makes a text an acceptable email address: it is not empty and holds an `@`.
pub open spec fn valid_email(s: Seq<char>) -> bool {
    s.len() > 0 && s.contains('@')
}

/// What makes a text an acceptable password: its UTF-8 encoding has at least
/// `MIN_PASSWORD_LEN` bytes.
pub open spec fn valid_password(s: Seq<char>) -> bool {
    encode_utf8(s).len() >= MIN_PASSWORD_LEN
}

/// An email address that passed validation.
#[derive(Debug, PartialEq, Eq)]
pub struct Email(String);

impl Clone for Email {
    fn clone(&self) -> (r: Self)
        ensures
            r@ == self@,
    {
        proof {
            use_type_invariant(self);
        }
        Email(self.0.clone())
    }
}

impl View for Email {
    type V = Seq<char>;

    closed spec fn view(&self) -> Seq<char> {
        self.0@
    }
}

impl Email {
    #[verifier::type_invariant]
    spec fn is_valid(&self) -> bool {
        valid_email(self.0@)
    }

    /// Accepts `value` as an email address when it is valid, else fails with
    /// `InvalidEmail`.
    pub fn new(value: String) -> (r: Result<Email, AuthError>)
        ensures
            r is Ok <==> valid_email(value@),
            r matches Ok(e) ==> e@ == value@,
            r matches Err(e) ==> e is InvalidEmail,
    {
        if value.as_str().is_empty() || !contains_char(value.as_str(), '@') {
            return Err(AuthError::InvalidEmail);
        }
        Ok(Email(value))
    }

    /// The address; it is valid, as every `Email` is.
    pub fn as_str(&self) -> (s: &str)
        ensures
            s@ == self@,
            valid_email(s@),
    {
        proof {
            use_type_invariant(self);
        }
        self.0.as_str()
    }
}

/// A password that passed validation.
#[derive(Debug)]
pub struct Password(String);

impl Clone for Password {
    fn clone(&self) -> (r: Self)
        ensures
            r@ == self@,
    {
        proof {
            use_type_invariant(self);
        }
        Password(self.0.clone())
    }
}

impl View for Password {
    type V = Seq<char>;

    closed spec fn view(&self) -> Seq<char> {
        self.0@
    }
}

impl Password {
    #[verifier::type_invariant]
    spec fn is_valid(&self) -> bool {
        valid_password(self.0@)
    }

    /// Accepts `value` as a password when it is long enough, else fails with
    /// `PasswordTooShort`.
    pub fn new(value: String) -> (r: Result<Password, AuthError>)
        ensures
            r is Ok <==> valid_password(value@),
            r matches Ok(p) ==> p@ == value@,
            r matches Err(e) ==> e is PasswordTooShort,
    {
        if value.as_str().as_bytes().len() < MIN_PASSWORD_LEN {
            return Err(AuthError::PasswordTooShort);
        }
        Ok(Password(value))
    }

    /// The password; it is long enough, as every `Password` is.
    pub fn as_str(&self) -> (s: &str)
        ensures
            s@ == self@,
            valid_password(s@),
    {
        proof {
            use_type_invariant(self);
        }
        self.0.as_str()
    }
}

/// An email address and a password, both validated.
#[derive(Debug, Clone)]
pub struct Credentials {
    pub email: Email,
    pub password: Password,
}

impl Credentials {
    /// Validates the email address first, then the password; the first rule
    /// that fails gives the error.
    pub fn new(email: String, password: String) -> (r: Result<Credentials, AuthError>)
        ensures
            r is Ok <==> valid_email(email@) && valid_password(password@),
            r matches Ok(c) ==> c.email@ == email@ && c.password@ == password@,
            !valid_email(email@) ==> (r matches Err(e) && e is InvalidEmail),
            valid_email(email@) && !valid_password(password@) ==> (r matches Err(e)
                && e is PasswordTooShort),
    {
        let email = Email::new(email)?;
        let password = Password::new(password)?;
        Ok(Credentials { email, password })
    }
}

/// A stored user.
#[derive(Debug, Clone)]
pub struct User {
    pub id: UserId,
    pub email: String,
    pub password_hash: String,
}

/// A user about to be stored.
#[derive(Debug, Clone)]
pub struct NewUser {
    pub email: String,
    pub password_hash: String,
}

/// What a valid session token states: whose it is and until when it holds,
/// in seconds since the Unix epoch.
#[derive(Debug, Clone, Copy, PartialEq, Eq)]
pub struct TokenClaims {
    pub user_id: UserId,
    pub expires_at: i64,
}

/// An email address is accepted exactly when it is not empty and holds an
/// `@` somewhere; nothing else about it is checked.
pub proof fn lemma_email_rule(s: Seq<char>)
    ensures
        valid_email(s) <==> (s.len() > 0 && exists|i: int| 0 <= i < s.len() && s[i] == '@'),
{
    if s.len() > 0 && exists|i: int| 0 <= i < s.len() && s[i] == '@' {
        let i = choose|i: int| 0 <= i < s.len() && s[i] == '@';
        assert(s.contains(s[i]));
    }
}

/// A password is accepted exactly when its UTF-8 encoding has at least 8
/// bytes; nothing else about it is checked, and a longer one is never
/// refused.
pub proof fn lemma_password_rule(s: Seq<char>)
    ensures
        valid_password(s) <==> encode_utf8(s).len() >= 8,
{
}

} // verus!
