//! The error taxonomy: store-level errors, per-resource errors, the
//! handler-level error pair, and the API-facing error that responses carry.
use vstd::prelude::*;

verus! {

/// A failure of the backing store.
#[derive(Debug)]
pub enum DBError {
    InvalidUUID(String),
    Other(String),
}

/// Failures of the user-account operations.
#[derive(Debug)]
pub enum UserError {
    InvalidInput(String),
    Other,
    DatabaseError,
}

/// Failures of the login-vault operations.
#[derive(Debug)]
pub enum LoginError {
    InvalidInput(String),
    Other,
    DatabaseError,
}

/// Failures of the payment-card operations.
#[derive(Debug)]
pub enum PaymentError {
    InvalidInput(String),
    Other,
    DatabaseError,
}

/// What a handler reports when an operation it delegated fails.
#[derive(Debug, PartialEq)]
pub enum HandlerError {
    BadRequest(String),
    InternalError(String),
}

impl HandlerError {
    /// The generic internal error shown to callers when the cause must stay
    /// server-side.
    pub fn default_internal_error() -> (r: HandlerError)
        ensures
            r matches HandlerError::InternalError(s) && s@
                == "Something went wrong! Please try again."@,
    {
        HandlerError::InternalError("Something went wrong! Please try again.".to_owned())
    }
}

/// The error a response carries: a 400, a 401 for a bad or missing token, a
/// 500, or a 401 for a failed login.
#[derive(Debug)]
pub enum APIError {
    BadRequest(String),
    Unauthorized(String),
    InternalError(String),
    InvalidCredentials(String),
}

impl From<HandlerError> for APIError {
    fn from(value: HandlerError) -> (r: APIError) {
        match value {
            HandlerError::BadRequest(s) => APIError::BadRequest(s),
            HandlerError::InternalError(s) => APIError::InternalError(s),
        }
    }
}

impl vstd::std_specs::convert::FromSpecImpl<HandlerError> for APIError {
    open spec fn obeys_from_spec() -> bool {
        true
    }

    open spec fn from_spec(t: HandlerError) -> APIError {
        match t {
            HandlerError::BadRequest(s) => APIError::BadRequest(s),
            HandlerError::InternalError(s) => APIError::InternalError(s),
        }
    }
}

} // verus!
