//! Authentication core of a password-vault backend: salted password hashing,
//! signed session tokens with a fixed lifetime, a revocation blacklist, and
//! the login / logout / request-authorization logic built on top of them.
pub mod auth_model;
pub mod auth_service;
pub mod errors;
pub mod handlers_inner;
pub mod hasher;
pub mod login_model;
pub mod middleware;
pub mod payment_model;
pub mod secured_note;
pub mod session_store;
pub mod token_codec;
pub mod user_directory;
pub mod user_model;
