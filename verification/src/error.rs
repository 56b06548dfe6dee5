//! The error an API request is answered with: an HTTP status, a stable code
//! for clients, and a message for people.
use vstd::prelude::*;

use crate::text::text;

verus! {

#[derive(Debug)]
pub struct ApiError {
    pub status: u16,
    pub code: &'static str,
    pub message: String,
}

/// `error` is the answer with this status, code and message.
pub open spec fn answers(error: ApiError, status: u16, code: Seq<char>, message: Seq<char>) -> bool {
    &&& error.status == status
    &&& error.code@ == code
    &&& error.message@ == message
}

impl ApiError {
    pub fn new(status: u16, code: &'static str, message: &str) -> (error: ApiError)
        ensures
            error.status == status,
            error.code == code,
            error.message@ == message@,
    {
        ApiError { status, code, message: text(message) }
    }

    /// The answer to a request that needs a signed-in user and has none.
    pub fn auth_required() -> (error: ApiError)
        ensures
            answers(error, 401, "AUTH_REQUIRED"@, "Sign in to continue"@),
    {
        ApiError::new(401, "AUTH_REQUIRED", "Sign in to continue")
    }
}

} // verus!
