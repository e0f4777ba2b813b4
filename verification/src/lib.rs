//! Verified core of the Mentem API: credential rules, password hashing and
//! session tokens for authentication, the login and registration flows, the
//! mapping between the AI domain and the model provider, and configuration
//! checks.

pub mod ai;
pub mod auth;
pub mod config;
pub mod health;
pub mod init;
pub mod text;
