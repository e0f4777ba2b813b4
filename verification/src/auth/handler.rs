//! The bodies that the authentication endpoints read and write.

use vstd::prelude::*;

use super::domain::{User, UserId};

verus! {

/// The body of a registration.
#[derive(Debug, Clone)]
pub struct RegisterRequest {
    pub email: String,
    pub password: String,
}

/// The body of a login.
#[derive(Debug, Clone)]
pub struct LoginRequest {
    pub email: String,
    pub password: String,
}

/// What is shown of a user: never its password hash.
#[derive(Debug, Clone)]
pub struct UserResponse {
    pub id: UserId,
    pub email: String,
}

/// The answer to a successful login.
#[derive(Debug, Clone)]
pub struct LoginResponse {
    pub token: String,
}

impl From<User> for UserResponse {
    fn from(user: User) -> (r: Self) {
        UserResponse { id: user.id, email: user.email }
    }
}

impl vstd::std_specs::convert::FromSpecImpl<User> for UserResponse {
    open spec fn obeys_from_spec() -> bool {
        true
    }

    open spec fn from_spec(user: User) -> Self {
        UserResponse { id: user.id, email: user.email }
    }
}

} // verus!
