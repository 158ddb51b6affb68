//! Signing in: credentials and the claims of a session token.

pub mod auth;
pub mod jwt;
