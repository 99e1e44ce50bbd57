//! The error taxonomy, and how each error is shown to a caller.

use vstd::prelude::*;

verus! {

/// Why a request or a command failed. The kinds that carry a cause from a
/// collaborator (storage, cache, token signing, password hashing) hold its
/// description, which is logged and never shown.
#[derive(Debug)]
pub enum AppError {
    NotFound(String),
    Unauthorized(String),
    BadRequest(String),
    Conflict(String),
    Forbidden(String),
    Database(String),
    Internal(String),
    Redis(String),
    Jwt(String),
    Bcrypt(String),
    RateLimited,
}

/// The HTTP status of each kind.
pub open spec fn status_of(e: AppError) -> u16 {
    match e {
        AppError::NotFound(_) => 404,
        AppError::Unauthorized(_) => 401,
        AppError::BadRequest(_) => 400,
        AppError::Conflict(_) => 409,
        AppError::Forbidden(_) => 403,
        AppError::RateLimited => 429,
        _ => 500,
    }
}

/// The code of each kind.
pub open spec fn code_of(e: AppError) -> Seq<char> {
    match e {
        AppError::NotFound(_) => "NOT_FOUND"@,
        AppError::Unauthorized(_) => "UNAUTHORIZED"@,
        AppError::BadRequest(_) => "BAD_REQUEST"@,
        AppError::Conflict(_) => "CONFLICT"@,
        AppError::Forbidden(_) => "FORBIDDEN"@,
        AppError::RateLimited => "TOO_MANY_REQUESTS"@,
        _ => "INTERNAL_SERVER_ERROR"@,
    }
}

/// The message shown: the error's own for the kinds a caller can act on,
/// a generic one for every internal failure.
pub open spec fn public_message_of(e: AppError) -> Seq<char> {
    match e {
        AppError::NotFound(m) => m@,
        AppError::Unauthorized(m) => m@,
        AppError::BadRequest(m) => m@,
        AppError::Conflict(m) => m@,
        AppError::Forbidden(m) => m@,
        AppError::RateLimited => "Rate limit exceeded"@,
        _ => "Internal server error"@,
    }
}

impl AppError {
    /// The status, code and message that a caller is shown.
    pub fn response_parts(&self) -> (r: (u16, &'static str, String))
        ensures
            r.0 == status_of(*self),
            r.1@ == code_of(*self),
            r.2@ == public_message_of(*self),
    {
        match self {
            AppError::NotFound(m) => (404, "NOT_FOUND", m.clone()),
            AppError::Unauthorized(m) => (401, "UNAUTHORIZED", m.clone()),
            AppError::BadRequest(m) => (400, "BAD_REQUEST", m.clone()),
            AppError::Conflict(m) => (409, "CONFLICT", m.clone()),
            AppError::Forbidden(m) => (403, "FORBIDDEN", m.clone()),
            AppError::RateLimited => (429, "TOO_MANY_REQUESTS", String::from_str("Rate limit exceeded")),
            _ => (500, "INTERNAL_SERVER_ERROR", String::from_str("Internal server error")),
        }
    }
}

} // verus!
