//! Receiving Stripe webhooks: an unsigned, stale or unreadable webhook is
//! refused, and a verified one hands on the payment it confirms.
use vstd::prelude::*;

use crate::adapters::stripe::{
    confirmed_payment, signature_verdict, verify_webhook, StripeEvent,
};
use crate::error::{answers, ApiError};
use crate::ports::order_repository::VerifiedPayment;

verus! {

/// `error` is the answer to a webhook that cannot be trusted.
pub open spec fn is_invalid_webhook(error: ApiError) -> bool {
    answers(error, 400, "INVALID_WEBHOOK"@, "Invalid webhook"@)
}

pub fn invalid_webhook() -> (error: ApiError)
    ensures
        is_invalid_webhook(error),
{
    ApiError::new(400, "INVALID_WEBHOOK", "Invalid webhook")
}

/// The payment a received webhook asks the store to apply, if any: the
/// `Stripe-Signature` header must be present and readable as text, the
/// signature must hold at `now_unix`, and the payload must be an event
/// (`decoded` is what a JSON reader made of it).
pub fn received_payment(
    signature_header: Option<&str>,
    payload: &[u8],
    secret: &[u8],
    now_unix: i64,
    decoded: Option<StripeEvent>,
) -> (payment: Result<Option<VerifiedPayment>, ApiError>)
    ensures
        match signature_header {
            None => payment matches Err(e) && is_invalid_webhook(e),
            Some(h) => if signature_verdict(payload@, h@, secret@, now_unix) is Ok
                && decoded is Some {
                payment matches Ok(p) && confirmed_payment(decoded->0, p)
            } else {
                payment matches Err(e) && is_invalid_webhook(e)
            },
        },
{
    let header = match signature_header {
        Some(h) => h,
        None => return Err(invalid_webhook()),
    };
    match verify_webhook(payload, header, secret, now_unix, decoded) {
        Ok(event) => Ok(event.verified_payment()),
        Err(_) => Err(invalid_webhook()),
    }
}

} // verus!
