//! Credential and session lifecycle of an account service: password hashing,
//! signed session tokens, one-time codes, and the guard of protected routes.

pub mod account;
pub mod handlers;
pub mod mail;
pub mod middleware;
pub mod otp;
pub mod password;
pub mod text;
pub mod token;
