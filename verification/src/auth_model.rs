//! The transient values of the authentication flow: submitted credentials,
//! the signed token's claims, the opaque token carrier, and what a
//! successful login returns.
use vstd::prelude::*;

use crate::user_model::User;

verus! {

/// A username/password pair as submitted; never persisted.
#[derive(Debug)]
pub struct Credentials {
    pub username: String,
    pub password: String,
}

/// The payload of a session token: the subject's user id and the expiry as
/// seconds since the epoch.
#[derive(Debug, PartialEq, Eq, Structural, Clone, Copy)]
pub struct TokenClaims {
    pub sub: i32,
    pub exp: usize,
}

/// The opaque signed token string as it travels in requests.
#[derive(Debug, Clone)]
pub struct Token(pub String);

impl View for Token {
    type V = Seq<char>;

    open spec fn view(&self) -> Seq<char> {
        self.0@
    }
}

/// Why a request carries no usable token.
#[derive(Debug, PartialEq, Eq, Structural)]
pub enum TokenError {
    Missing,
    Invalid,
}

/// What a successful login returns: the sanitized user and a fresh token.
#[derive(Debug)]
pub struct LoginResponse {
    pub user: User,
    pub token: Token,
}

} // verus!
