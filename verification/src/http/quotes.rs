//! Quotes: the rental window a request names, the listing's pricing, and the
//! answers to each way a quote can fail.
use vstd::prelude::*;

use crate::domain::billing::{billable_units, started_units, BillingError};
use crate::domain::pricing::BillingUnit;
use crate::domain::quote::{
    calculate_quote, has_negative_amount, is_breakdown, quote_fits, FulfillmentMethod,
    QuoteBreakdown, QuoteError, QuoteInput,
};
use crate::error::{answers, ApiError};
use crate::ports::order_repository::{ListingPricing, ReserveError};
use crate::timestamp::{parse_rfc3339, rfc3339_timestamp, Timestamp};

verus! {

/// A request for a quote, or for an order at the quoted price.
#[derive(Debug, Clone)]
pub struct QuoteRequest {
    pub listing_id: u128,
    pub start_at: Option<String>,
    pub end_at: Option<String>,
    pub fulfillment: FulfillmentMethod,
}

/// A quote together with the window it prices.
#[derive(Debug)]
pub struct PreparedQuote {
    pub quote: QuoteBreakdown,
    pub billing_unit: BillingUnit,
    pub start_at: Timestamp,
    pub end_at: Timestamp,
}

/// The text of an optional string.
pub open spec fn text_of(value: Option<String>) -> Option<Seq<char>> {
    match value {
        Some(s) => Some(s@),
        None => None,
    }
}

/// The window that a start and an end in RFC 3339 form name: both must be
/// given and readable, and the start must come before the end.
pub open spec fn rental_window(start_at: Option<Seq<char>>, end_at: Option<Seq<char>>) -> Option<
    (Timestamp, Timestamp),
> {
    match (start_at, end_at) {
        (Some(s), Some(e)) => match (rfc3339_timestamp(s), rfc3339_timestamp(e)) {
            (Some(a), Some(b)) => if a.unix_nanos < b.unix_nanos {
                Some((a, b))
            } else {
                None
            },
            _ => None,
        },
        _ => None,
    }
}

/// `error` is the answer to a missing or unreadable rental window.
pub open spec fn is_invalid_window(error: ApiError) -> bool {
    answers(
        error,
        422,
        "INVALID_RENTAL_WINDOW"@,
        "Provide startAt and endAt as valid timestamps with endAt after startAt"@,
    )
}

/// The answer to a missing or unreadable rental window.
pub fn invalid_rental_window() -> (error: ApiError)
    ensures
        is_invalid_window(error),
{
    ApiError::new(
        422,
        "INVALID_RENTAL_WINDOW",
        "Provide startAt and endAt as valid timestamps with endAt after startAt",
    )
}

/// Reads the rental window of a request.
pub fn parse_rental_window(start_at: Option<String>, end_at: Option<String>) -> (window: Result<
    (Timestamp, Timestamp),
    ApiError,
>)
    ensures
        match rental_window(text_of(start_at), text_of(end_at)) {
            Some(w) => window matches Ok(v) && v == w,
            None => window matches Err(e) && is_invalid_window(e),
        },
{
    let (start_text, end_text) = match (start_at, end_at) {
        (Some(s), Some(e)) => (s, e),
        _ => return Err(invalid_rental_window()),
    };
    let start = match parse_rfc3339(start_text.as_str()) {
        Some(t) => t,
        None => return Err(invalid_rental_window()),
    };
    let end = match parse_rfc3339(end_text.as_str()) {
        Some(t) => t,
        None => return Err(invalid_rental_window()),
    };
    if start.unix_nanos >= end.unix_nanos {
        return Err(invalid_rental_window());
    }
    Ok((start, end))
}

/// The answer to each way the store can refuse: status, code and message.
pub open spec fn repository_answer(error: ReserveError) -> (u16, Seq<char>, Seq<char>) {
    match error {
        ReserveError::NotFound => (404, "LISTING_NOT_FOUND"@, "Listing not found"@),
        ReserveError::Unavailable => (
            409,
            "LISTING_UNAVAILABLE"@,
            "Listing is not available for those dates"@,
        ),
        ReserveError::SelfTransaction => (
            409,
            "SELF_TRANSACTION"@,
            "You cannot transact with your own listing"@,
        ),
        ReserveError::Forbidden => (403, "ACTION_FORBIDDEN"@, "You cannot perform that action"@),
        ReserveError::InvalidTransition => (
            409,
            "INVALID_ORDER_TRANSITION"@,
            "That order action is not allowed in its current state"@,
        ),
        ReserveError::InvalidPricing => (
            422,
            "INVALID_PRICING_PROFILE"@,
            "Pricing profile is invalid"@,
        ),
        ReserveError::PricingNotFound => (
            404,
            "PRICING_PROFILE_NOT_FOUND"@,
            "Listing pricing is not configured"@,
        ),
        ReserveError::Database(_) => (503, "SERVICE_UNAVAILABLE"@, "Please try again later"@),
    }
}

/// `answer` is the answer to the store's refusal `error`.
pub open spec fn answers_repository(answer: ApiError, error: ReserveError) -> bool {
    let (status, code, message) = repository_answer(error);
    answers(answer, status, code, message)
}

/// The answer to a refusal of the store; a storage failure is answered
/// without its details.
pub fn map_repository_error(error: ReserveError) -> (answer: ApiError)
    ensures
        answers_repository(answer, error),
{
    match error {
        ReserveError::NotFound => ApiError::new(404, "LISTING_NOT_FOUND", "Listing not found"),
        ReserveError::Unavailable => ApiError::new(
            409,
            "LISTING_UNAVAILABLE",
            "Listing is not available for those dates",
        ),
        ReserveError::SelfTransaction => ApiError::new(
            409,
            "SELF_TRANSACTION",
            "You cannot transact with your own listing",
        ),
        ReserveError::Forbidden => ApiError::new(
            403,
            "ACTION_FORBIDDEN",
            "You cannot perform that action",
        ),
        ReserveError::InvalidTransition => ApiError::new(
            409,
            "INVALID_ORDER_TRANSITION",
            "That order action is not allowed in its current state",
        ),
        ReserveError::InvalidPricing => ApiError::new(
            422,
            "INVALID_PRICING_PROFILE",
            "Pricing profile is invalid",
        ),
        ReserveError::PricingNotFound => ApiError::new(
            404,
            "PRICING_PROFILE_NOT_FOUND",
            "Listing pricing is not configured",
        ),
        ReserveError::Database(_) => ApiError::new(
            503,
            "SERVICE_UNAVAILABLE",
            "Please try again later",
        ),
    }
}

/// `error` is the answer to a quote that cannot be made.
pub open spec fn is_invalid_quote(error: ApiError) -> bool {
    answers(error, 422, "INVALID_QUOTE_INPUT"@, "Quote input is invalid"@)
}

/// Every quote failure gets the same answer.
pub fn map_quote_error(error: QuoteError) -> (answer: ApiError)
    ensures
        is_invalid_quote(answer),
{
    ApiError::new(422, "INVALID_QUOTE_INPUT", "Quote input is invalid")
}

/// A window that cannot be billed is answered as an invalid window.
pub fn map_billing_error(error: BillingError) -> (answer: ApiError)
    ensures
        is_invalid_window(answer),
{
    invalid_rental_window()
}

/// The units a window is billed for, when it can be billed.
pub open spec fn billed_units(start: Timestamp, end: Timestamp, unit: BillingUnit) -> Option<i64> {
    let duration = end.unix_nanos - start.unix_nanos;
    if 0 < duration <= i128::MAX && started_units(duration, unit) <= i64::MAX {
        Some(started_units(duration, unit) as i64)
    } else {
        None
    }
}

/// `error` is the answer to a fulfillment method the listing does not offer.
pub open spec fn is_fulfillment_not_offered(error: ApiError) -> bool {
    answers(
        error,
        422,
        "FULFILLMENT_NOT_ALLOWED"@,
        "Fulfillment method is not available for this listing"@,
    )
}

/// The quote of a window of a listing, once the store has answered with its
/// pricing: the fulfillment must be one the listing offers, the window must
/// be billable, and the amounts must make a quote.
pub open spec fn quote_outcome(
    pricing: Result<ListingPricing, ReserveError>,
    fulfillment: FulfillmentMethod,
    start_at: Timestamp,
    end_at: Timestamp,
    prepared: Result<PreparedQuote, ApiError>,
) -> bool {
    match pricing {
        Err(e) => prepared matches Err(a) && answers_repository(a, e),
        Ok(p) => if !p.allowed_fulfillment_methods@.contains(fulfillment) {
            prepared matches Err(a) && is_fulfillment_not_offered(a)
        } else {
            match billed_units(start_at, end_at, p.billing_unit) {
                None => prepared matches Err(a) && is_invalid_window(a),
                Some(units) => {
                    let input = QuoteInput {
                        units,
                        wants_delivery: fulfillment == FulfillmentMethod::Delivery,
                    };
                    if !has_negative_amount(p.snapshot) && quote_fits(p.snapshot, input) {
                        prepared matches Ok(q) && q.start_at == start_at && q.end_at == end_at
                            && q.billing_unit == p.billing_unit && is_breakdown(
                            q.quote,
                            p.snapshot,
                            input,
                        )
                    } else {
                        prepared matches Err(a) && is_invalid_quote(a)
                    }
                },
            }
        },
    }
}

/// Whether `methods` holds `method`.
pub fn offers(methods: &Vec<FulfillmentMethod>, method: FulfillmentMethod) -> (found: bool)
    ensures
        found == methods@.contains(method),
{
    let mut i: usize = 0;
    while i < methods.len()
        invariant
            0 <= i <= methods@.len(),
            forall|j: int| 0 <= j < i ==> methods@[j] != method,
        decreases methods@.len() - i,
    {
        if methods[i] == method {
            return true;
        }
        i = i + 1;
    }
    false
}

/// Quotes a window of a listing from the pricing the store answered with.
pub fn prepare_quote(
    pricing: Result<ListingPricing, ReserveError>,
    fulfillment: FulfillmentMethod,
    start_at: Timestamp,
    end_at: Timestamp,
) -> (prepared: Result<PreparedQuote, ApiError>)
    ensures
        quote_outcome(pricing, fulfillment, start_at, end_at, prepared),
{
    let pricing = match pricing {
        Ok(p) => p,
        Err(e) => return Err(map_repository_error(e)),
    };
    if !offers(&pricing.allowed_fulfillment_methods, fulfillment) {
        return Err(
            ApiError::new(
                422,
                "FULFILLMENT_NOT_ALLOWED",
                "Fulfillment method is not available for this listing",
            ),
        );
    }
    let units = match billable_units(start_at, end_at, pricing.billing_unit) {
        Ok(units) => units,
        Err(e) => return Err(map_billing_error(e)),
    };
    let input = QuoteInput {
        units,
        wants_delivery: fulfillment == FulfillmentMethod::Delivery,
    };
    match calculate_quote(pricing.snapshot, input) {
        Ok(quote) => Ok(PreparedQuote { quote, billing_unit: pricing.billing_unit, start_at, end_at }),
        Err(e) => Err(map_quote_error(e)),
    }
}

/// A prepared quote charges the listing's delivery fee exactly when the
/// order is delivered: for pickup, meeting at the owner's location or use on
/// site the delivery fee is 0. In every case the base is the unit price times
/// the billable units, the service fee is the base times the fee in basis
/// points over 10 000, rounded down, and the total is base, service fee,
/// delivery fee and deposit.
pub proof fn lemma_delivery_fee_only_for_delivery(
    pricing: Result<ListingPricing, ReserveError>,
    fulfillment: FulfillmentMethod,
    start_at: Timestamp,
    end_at: Timestamp,
    prepared: PreparedQuote,
)
    requires
        quote_outcome(pricing, fulfillment, start_at, end_at, Ok(prepared)),
    ensures
        pricing is Ok,
        ({
            let p = pricing->Ok_0.snapshot;
            let q = prepared.quote;
            &&& fulfillment != FulfillmentMethod::Delivery ==> q.delivery_fee_cents == 0
            &&& fulfillment == FulfillmentMethod::Delivery ==> q.delivery_fee_cents
                == p.delivery_fee_cents
            &&& q.unit_price_cents == p.unit_price_cents
            &&& q.base_cents == p.unit_price_cents * q.billable_units
            &&& q.service_fee_cents == q.base_cents * p.service_fee_bps / 10_000
            &&& q.deposit_cents == p.deposit_cents
            &&& q.total_cents == q.base_cents + q.service_fee_cents + q.delivery_fee_cents
                + q.deposit_cents
        }),
{
}

} // verus!
