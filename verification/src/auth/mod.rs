//! Authentication: credentials, users, password hashing, session tokens and
//! the decisions of the login and registration flows.

pub mod domain;
pub mod error;
pub mod extractor;
pub mod handler;
pub mod hasher;
pub mod ids;
pub mod repository;
pub mod service;
pub mod token;

pub use domain::{Credentials, Email, NewUser, Password, TokenClaims, User, UserId};
pub use error::AuthError;
pub use extractor::AuthUser;
pub use handler::{LoginRequest, LoginResponse, RegisterRequest, UserResponse};
pub use hasher::{Argon2Hasher, PasswordHasher};
pub use token::{JwtTokenService, TokenService};
