//! What the order store is asked to do, and the rules every store applies to
//! a payment before it marks an order paid. Identifiers are the 128-bit values
//! of UUIDs.
use vstd::prelude::*;

use crate::domain::order_state::{order_state_name, OrderAction, OrderState};
use crate::domain::pricing::{PricingCategoryInput, Recommendation};
use crate::domain::pricing::BillingUnit;
use crate::domain::quote::{FulfillmentMethod, PricingSnapshot, QuoteBreakdown};
use crate::text::text_eq;
use crate::timestamp::Timestamp;

verus! {

/// What a listing is priced with: the amounts, the billing unit and the
/// fulfillment methods it offers.
#[derive(Debug, Clone)]
pub struct ListingPricing {
    pub snapshot: PricingSnapshot,
    pub billing_unit: BillingUnit,
    pub allowed_fulfillment_methods: Vec<FulfillmentMethod>,
}

/// A seller's pricing choice for one of their listings, ready to be stored.
#[derive(Debug, Clone)]
pub struct SavePricingProfile {
    pub listing_id: u128,
    pub owner_id: u128,
    pub attributes: PricingCategoryInput,
    pub recommendation: Recommendation,
    pub seller_adjustment_cents: i64,
    pub final_unit_price_cents: i64,
    pub allowed_fulfillment_methods: Vec<FulfillmentMethod>,
}

/// A pricing profile as the store holds it.
#[derive(Debug, Clone)]
pub struct StoredPricingProfile {
    pub listing_id: u128,
    pub recommended_unit_price_cents: i64,
    pub seller_adjustment_cents: i64,
    pub final_unit_price_cents: i64,
    pub minimum_allowed_cents: i64,
    pub maximum_allowed_cents: i64,
    pub billing_unit: BillingUnit,
    pub ruleset_version: String,
    pub reason_codes: Vec<String>,
    pub allowed_fulfillment_methods: Vec<FulfillmentMethod>,
}

/// A buyer's request to reserve a listing at a quoted price.
#[derive(Clone)]
pub struct CreateOrder {
    pub listing_id: u128,
    pub buyer_id: u128,
    pub start_at: Option<Timestamp>,
    pub end_at: Option<Timestamp>,
    pub fulfillment: FulfillmentMethod,
    pub quote: QuoteBreakdown,
    /// The unit the quote was billed in.
    pub billing_unit: BillingUnit,
}

#[derive(Debug, Clone, Copy)]
pub struct ReservedOrder {
    pub order_id: u128,
    pub expires_at: Timestamp,
}

/// A payment that the payment provider has confirmed, as the webhook reports it.
#[derive(Debug, Clone, PartialEq, Eq)]
pub struct VerifiedPayment {
    pub event_id: String,
    pub order_id: u128,
    pub amount_total_cents: i64,
    pub currency: String,
}

/// What the store holds of an order when a payment for it arrives.
#[derive(Debug, Clone)]
pub struct StoredOrderPayment {
    pub status: String,
    pub reservation_expires_at: Timestamp,
    pub total_cents: i64,
    pub currency: String,
}

#[derive(Debug, Clone, Copy, PartialEq, Eq, Structural)]
pub enum PaymentValidation {
    Accepted,
    WrongState,
    Expired,
    AmountMismatch,
    CurrencyMismatch,
}

#[derive(Debug, Clone, Copy, PartialEq, Eq, Structural)]
pub enum PaymentEventOutcome {
    Applied,
    Duplicate,
    MissingOrder,
    Rejected(PaymentValidation),
}

/// A character folded to ASCII lower case (other characters are left as they are).
pub open spec fn ascii_folded(c: char) -> u32 {
    if 'A' <= c && c <= 'Z' {
        (c as u32 + 32) as u32
    } else {
        c as u32
    }
}

/// Whether two texts match when ASCII letters are compared without case.
pub open spec fn same_ignoring_ascii_case(a: Seq<char>, b: Seq<char>) -> bool {
    &&& a.len() == b.len()
    &&& forall|i: int| 0 <= i < a.len() ==> ascii_folded(#[trigger] a[i]) == ascii_folded(b[i])
}

/// The verdict on a payment for a stored order: the order must still await
/// payment, its hold must not have expired, and the amount and currency
/// (ignoring ASCII case) must match, checked in that order.
pub open spec fn payment_verdict(
    payment: VerifiedPayment,
    order: StoredOrderPayment,
    now: Timestamp,
) -> PaymentValidation {
    if order.status@ != order_state_name(OrderState::PendingPayment) {
        PaymentValidation::WrongState
    } else if order.reservation_expires_at.unix_nanos <= now.unix_nanos {
        PaymentValidation::Expired
    } else if payment.amount_total_cents != order.total_cents {
        PaymentValidation::AmountMismatch
    } else if !same_ignoring_ascii_case(payment.currency@, order.currency@) {
        PaymentValidation::CurrencyMismatch
    } else {
        PaymentValidation::Accepted
    }
}

fn fold_ascii(c: char) -> (folded: u32)
    ensures
        folded == ascii_folded(c),
{
    if 'A' <= c && c <= 'Z' {
        c as u32 + 32
    } else {
        c as u32
    }
}

/// Compares two texts, ASCII letters without regard to case (as
/// `str::eq_ignore_ascii_case` does).
pub fn eq_ignore_ascii_case(a: &str, b: &str) -> (same: bool)
    ensures
        same == same_ignoring_ascii_case(a@, b@),
{
    let n = a.unicode_len();
    if n != b.unicode_len() {
        return false;
    }
    let mut i: usize = 0;
    while i < n
        invariant
            n == a@.len(),
            n == b@.len(),
            i <= n,
            forall|j: int| 0 <= j < i ==> ascii_folded(#[trigger] a@[j]) == ascii_folded(b@[j]),
        decreases n - i,
    {
        if fold_ascii(a.get_char(i)) != fold_ascii(b.get_char(i)) {
            return false;
        }
        i = i + 1;
    }
    true
}

/// Decides whether a payment may mark a stored order paid.
pub fn validate_payment(
    payment: &VerifiedPayment,
    order: &StoredOrderPayment,
    now: Timestamp,
) -> (verdict: PaymentValidation)
    ensures
        verdict == payment_verdict(*payment, *order, now),
{
    if !text_eq(order.status.as_str(), "pending_payment") {
        return PaymentValidation::WrongState;
    }
    if order.reservation_expires_at.unix_nanos <= now.unix_nanos {
        return PaymentValidation::Expired;
    }
    if payment.amount_total_cents != order.total_cents {
        return PaymentValidation::AmountMismatch;
    }
    if !eq_ignore_ascii_case(payment.currency.as_str(), order.currency.as_str()) {
        return PaymentValidation::CurrencyMismatch;
    }
    PaymentValidation::Accepted
}

/// A payment is accepted exactly when every check passes: the order is
/// pending, its hold is still running, and amount and currency match.
pub proof fn lemma_accepted_payment_matches_order(
    payment: VerifiedPayment,
    order: StoredOrderPayment,
    now: Timestamp,
)
    ensures
        payment_verdict(payment, order, now) == PaymentValidation::Accepted <==> {
            &&& order.status@ == "pending_payment"@
            &&& now.unix_nanos < order.reservation_expires_at.unix_nanos
            &&& payment.amount_total_cents == order.total_cents
            &&& same_ignoring_ascii_case(payment.currency@, order.currency@)
        },
{
}

#[derive(Debug)]
pub enum ReserveError {
    NotFound,
    Unavailable,
    SelfTransaction,
    Forbidden,
    InvalidTransition,
    InvalidPricing,
    PricingNotFound,
    Database(String),
}

impl ReserveError {
    /// A storage failure, described by `message`.
    pub fn database(message: String) -> (error: ReserveError)
        ensures
            error == ReserveError::Database(message),
    {
        ReserveError::Database(message)
    }
}

} // verus!
