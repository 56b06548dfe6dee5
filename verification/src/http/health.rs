//! Liveness and readiness answers.
use vstd::prelude::*;

use crate::error::{answers, ApiError};
use crate::ports::order_repository::ReserveError;

verus! {

/// The liveness answer.
#[derive(Debug, Clone, Copy)]
pub struct Health {
    pub status: &'static str,
}

/// The readiness answer.
#[derive(Debug, Clone, Copy)]
pub struct Readiness {
    pub status: &'static str,
}

/// The service is alive whenever it can answer.
pub fn get() -> (health: Health)
    ensures
        health.status@ == "ok"@,
{
    Health { status: "ok" }
}

/// The readiness answer after the store was asked whether it is reachable:
/// `"ready"`, or 503 without the store's own words.
pub fn readiness(store: Result<(), ReserveError>) -> (status: Result<Readiness, ApiError>)
    ensures
        match store {
            Ok(()) => status matches Ok(r) && r.status@ == "ready"@,
            Err(_) => status matches Err(e) && answers(
                e,
                503,
                "DATABASE_UNAVAILABLE"@,
                "Database is temporarily unavailable"@,
            ),
        },
{
    match store {
        Ok(()) => Ok(Readiness { status: "ready" }),
        Err(_) => Err(
            ApiError::new(503, "DATABASE_UNAVAILABLE", "Database is temporarily unavailable"),
        ),
    }
}

} // verus!
