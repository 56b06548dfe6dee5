//! The PostgreSQL order store's own rules: which database failures mean the
//! listing is taken, which windows can be held, and what its history records.
use vstd::prelude::*;

use crate::domain::order_state::{order_state_name, OrderState};
use crate::ports::order_repository::ReserveError;
use crate::text::{push_text, text, text_eq};
use crate::timestamp::Timestamp;

verus! {

/// The service fee, in basis points, that the store prices with unless told otherwise.
pub const DEFAULT_SERVICE_FEE_BPS: i64 = 600;

/// How long, in minutes, a reservation is held for payment unless told otherwise.
pub const DEFAULT_RESERVATION_MINUTES: i64 = 30;

/// What a database failure means: an exclusion (`23P01`) or uniqueness
/// (`23505`) violation is a listing that is already taken; anything else is a
/// storage failure described by `message`.
pub fn sql_error(code: Option<&str>, message: String) -> (error: ReserveError)
    ensures
        match code {
            Some(c) => if c@ == "23P01"@ || c@ == "23505"@ {
                error is Unavailable
            } else {
                error == ReserveError::Database(message)
            },
            None => error == ReserveError::Database(message),
        },
{
    match code {
        Some(c) => if text_eq(c, "23P01") || text_eq(c, "23505") {
            ReserveError::Unavailable
        } else {
            ReserveError::database(message)
        },
        None => ReserveError::database(message),
    }
}

/// A window whose start is not before its end cannot be held; an open window
/// can.
pub fn check_window(start_at: Option<Timestamp>, end_at: Option<Timestamp>) -> (checked: Result<
    (),
    ReserveError,
>)
    ensures
        match (start_at, end_at) {
            (Some(s), Some(e)) => if s.unix_nanos >= e.unix_nanos {
                checked matches Err(ReserveError::Unavailable)
            } else {
                checked is Ok
            },
            _ => checked is Ok,
        },
{
    match (start_at, end_at) {
        (Some(s), Some(e)) => if s.unix_nanos >= e.unix_nanos {
            Err(ReserveError::Unavailable)
        } else {
            Ok(())
        },
        _ => Ok(()),
    }
}

/// The history event of an order moving to `next`.
pub fn state_change_event(next: OrderState) -> (event: String)
    ensures
        event@ == "state_changed_to_"@ + order_state_name(next),
{
    let mut event = text("state_changed_to_");
    push_text(&mut event, next.as_str());
    event
}

} // verus!
