//! Checkout sessions with the payment provider.
use vstd::prelude::*;

verus! {

/// A request to take payment for an order.
#[derive(Debug, Clone, Copy, PartialEq, Eq, Structural)]
pub struct CheckoutRequest {
    pub order_id: u128,
    pub amount_cents: i64,
}

#[derive(Debug, Clone, PartialEq, Eq)]
pub struct CheckoutSession {
    pub payment_intent_id: String,
    pub checkout_url: String,
}

#[derive(Debug, Clone, Copy, PartialEq, Eq, Structural)]
pub enum PaymentError {
    InvalidAmount,
    Unavailable,
}

} // verus!
