//! Retrying MongoDB transactions: a reservation is tried up to eight times
//! while the driver reports transient transaction errors, with a growing
//! pause between attempts; a commit whose result is unknown is retried twice.
use vstd::prelude::*;

use crate::ports::order_repository::{ReserveError, ReservedOrder};
use crate::text::text;

verus! {

/// How many times a reservation transaction is tried.
pub const MAX_TRANSACTION_ATTEMPTS: u32 = 8;

/// How many times a commit with an unknown result is tried again.
pub const MAX_COMMIT_RETRIES: u32 = 2;

/// How one attempt at a reservation transaction ended.
#[derive(Debug)]
pub enum AttemptOutcome {
    /// The reservation was written and committed.
    Reserved(ReservedOrder),
    /// The rules refused the reservation.
    Refused(ReserveError),
    /// The driver failed; `transient` when it labelled the failure a
    /// transient transaction error, described by `message`.
    DriverFailed { transient: bool, message: String },
}

/// What to do after an attempt.
#[derive(Debug)]
pub enum NextStep {
    /// Answer the caller with this result.
    Finish(Result<ReservedOrder, ReserveError>),
    /// Pause for this many milliseconds, then try again.
    RetryAfter(u64),
}

/// The pause before the attempt after attempt number `attempt` (counted from
/// zero): twice the square of the attempts made so far, in milliseconds.
pub open spec fn backoff_ms(attempt: u32) -> int {
    (attempt + 1) * (attempt + 1) * 2
}

/// Decides what follows attempt number `attempt` (counted from zero): a
/// reservation or a refusal is the answer, a transient driver failure is
/// tried again while attempts remain, and any other failure is a storage
/// failure.
pub fn after_attempt(attempt: u32, outcome: AttemptOutcome) -> (step: NextStep)
    requires
        attempt < MAX_TRANSACTION_ATTEMPTS,
    ensures
        match outcome {
            AttemptOutcome::Reserved(r) => step == NextStep::Finish(Ok(r)),
            AttemptOutcome::Refused(e) => step == NextStep::Finish(Err(e)),
            AttemptOutcome::DriverFailed { transient, message } => if transient && attempt + 1
                < MAX_TRANSACTION_ATTEMPTS {
                step == NextStep::RetryAfter(backoff_ms(attempt) as u64)
            } else {
                step == NextStep::Finish(Err(ReserveError::Database(message)))
            },
        },
{
    match outcome {
        AttemptOutcome::Reserved(r) => NextStep::Finish(Ok(r)),
        AttemptOutcome::Refused(e) => NextStep::Finish(Err(e)),
        AttemptOutcome::DriverFailed { transient, message } => if transient && attempt + 1
            < MAX_TRANSACTION_ATTEMPTS {
            let tries: u64 = attempt as u64 + 1;
            assert(tries * tries <= 64) by (nonlinear_arith)
                requires
                    tries <= 8,
            ;
            NextStep::RetryAfter(tries * tries * 2)
        } else {
            NextStep::Finish(Err(ReserveError::database(message)))
        },
    }
}

/// The answer when every attempt failed transiently.
pub fn retries_exhausted() -> (error: ReserveError)
    ensures
        error matches ReserveError::Database(m) && m@ == "transaction retry limit exceeded"@,
{
    ReserveError::database(text("transaction retry limit exceeded"))
}

/// Whether a failed commit is tried again: only when its result is unknown
/// and fewer than two retries were made.
pub fn retry_commit(result_unknown: bool, retries_made: u32) -> (again: bool)
    ensures
        again == (result_unknown && retries_made < MAX_COMMIT_RETRIES),
{
    result_unknown && retries_made < MAX_COMMIT_RETRIES
}

/// Every pause is longer than the one before it.
pub proof fn lemma_backoff_grows(attempt: u32)
    requires
        0 < attempt < MAX_TRANSACTION_ATTEMPTS,
    ensures
        backoff_ms((attempt - 1) as u32) < backoff_ms(attempt),
{
    assert(attempt * attempt * 2 < (attempt + 1) * (attempt + 1) * 2) by (nonlinear_arith)
        requires
            attempt > 0,
    ;
}

} // verus!
