//! The authoritative price of an order: integer cents, a basis-point service
//! fee, an optional delivery fee and a refundable deposit.
use vstd::prelude::*;

use crate::text::{text, text_eq};

verus! {

/// How the buyer receives the item or uses the space.
#[derive(Debug, Clone, Copy, PartialEq, Eq, Structural)]
pub enum FulfillmentMethod {
    Pickup,
    Delivery,
    OwnerLocation,
    OnSite,
}

/// The stored name of a fulfillment method.
pub open spec fn fulfillment_name(method: FulfillmentMethod) -> Seq<char> {
    match method {
        FulfillmentMethod::Pickup => "pickup"@,
        FulfillmentMethod::Delivery => "delivery"@,
        FulfillmentMethod::OwnerLocation => "owner_location"@,
        FulfillmentMethod::OnSite => "on_site"@,
    }
}

impl FulfillmentMethod {
    pub fn as_str(self) -> (name: &'static str)
        ensures
            name@ == fulfillment_name(self),
    {
        match self {
            FulfillmentMethod::Pickup => "pickup",
            FulfillmentMethod::Delivery => "delivery",
            FulfillmentMethod::OwnerLocation => "owner_location",
            FulfillmentMethod::OnSite => "on_site",
        }
    }

    /// The fulfillment method with the stored name `value`, if any.
    pub fn from_name(value: &str) -> (method: Option<FulfillmentMethod>)
        ensures
            match method {
                Some(m) => fulfillment_name(m) == value@,
                None => forall|m: FulfillmentMethod| fulfillment_name(m) != value@,
            },
    {
        if text_eq(value, "pickup") {
            Some(FulfillmentMethod::Pickup)
        } else if text_eq(value, "delivery") {
            Some(FulfillmentMethod::Delivery)
        } else if text_eq(value, "owner_location") {
            Some(FulfillmentMethod::OwnerLocation)
        } else if text_eq(value, "on_site") {
            Some(FulfillmentMethod::OnSite)
        } else {
            proof {
                assert forall|m: FulfillmentMethod| fulfillment_name(m) != value@ by {
                    match m {
                        FulfillmentMethod::Pickup => {},
                        FulfillmentMethod::Delivery => {},
                        FulfillmentMethod::OwnerLocation => {},
                        FulfillmentMethod::OnSite => {},
                    }
                }
            }
            None
        }
    }
}

/// The amounts a listing is priced with when a quote is made.
#[derive(Debug, Clone, Copy, PartialEq, Eq, Structural)]
pub struct PricingSnapshot {
    pub unit_price_cents: i64,
    pub deposit_cents: i64,
    pub delivery_fee_cents: i64,
    pub service_fee_bps: i64,
}

#[derive(Debug, Clone, Copy, PartialEq, Eq, Structural)]
pub struct QuoteInput {
    pub units: i64,
    pub wants_delivery: bool,
}

/// A quote, every amount in integer U.S. cents.
#[derive(Debug, Clone, PartialEq, Eq)]
pub struct QuoteBreakdown {
    pub unit_price_cents: i64,
    pub billable_units: i64,
    pub base_cents: i64,
    pub service_fee_cents: i64,
    pub delivery_fee_cents: i64,
    pub deposit_cents: i64,
    pub total_cents: i64,
    pub currency: String,
}

impl QuoteBreakdown {
    /// A copy of this quote.
    pub fn duplicate(&self) -> (copy: QuoteBreakdown)
        ensures
            copy == *self,
    {
        QuoteBreakdown {
            unit_price_cents: self.unit_price_cents,
            billable_units: self.billable_units,
            base_cents: self.base_cents,
            service_fee_cents: self.service_fee_cents,
            delivery_fee_cents: self.delivery_fee_cents,
            deposit_cents: self.deposit_cents,
            total_cents: self.total_cents,
            currency: self.currency.clone(),
        }
    }
}

#[derive(Debug, Clone, Copy, PartialEq, Eq, Structural)]
pub enum QuoteError {
    InvalidUnits,
    NegativeAmount,
    Overflow,
}

/// The base amount: the unit price times the billable units.
pub open spec fn quote_base(pricing: PricingSnapshot, input: QuoteInput) -> int {
    pricing.unit_price_cents * input.units
}

/// The service fee: the base times the fee in basis points, over 10 000,
/// rounded down.
pub open spec fn quote_service_fee(pricing: PricingSnapshot, input: QuoteInput) -> int {
    (quote_base(pricing, input) * pricing.service_fee_bps) / 10_000
}

/// The delivery fee is charged only when delivery is wanted.
pub open spec fn quote_delivery_fee(pricing: PricingSnapshot, input: QuoteInput) -> int {
    if input.wants_delivery {
        pricing.delivery_fee_cents as int
    } else {
        0
    }
}

pub open spec fn quote_total(pricing: PricingSnapshot, input: QuoteInput) -> int {
    quote_base(pricing, input) + quote_service_fee(pricing, input) + quote_delivery_fee(
        pricing,
        input,
    ) + pricing.deposit_cents
}

pub open spec fn has_negative_amount(pricing: PricingSnapshot) -> bool {
    pricing.unit_price_cents < 0 || pricing.deposit_cents < 0 || pricing.delivery_fee_cents < 0
        || pricing.service_fee_bps < 0
}

/// Whether the quote's intermediate amounts all fit in an `i64`.
pub open spec fn quote_fits(pricing: PricingSnapshot, input: QuoteInput) -> bool {
    &&& quote_base(pricing, input) <= i64::MAX
    &&& quote_base(pricing, input) * pricing.service_fee_bps <= i64::MAX
    &&& quote_total(pricing, input) <= i64::MAX
}

/// `quote` is the breakdown of `pricing` for `input`.
pub open spec fn is_breakdown(quote: QuoteBreakdown, pricing: PricingSnapshot, input: QuoteInput) -> bool {
    &&& quote.unit_price_cents == pricing.unit_price_cents
    &&& quote.billable_units == input.units
    &&& quote.base_cents == quote_base(pricing, input)
    &&& quote.service_fee_cents == quote_service_fee(pricing, input)
    &&& quote.delivery_fee_cents == quote_delivery_fee(pricing, input)
    &&& quote.deposit_cents == pricing.deposit_cents
    &&& quote.total_cents == quote_total(pricing, input)
    &&& quote.currency@ == "USD"@
}

/// Prices `input.units` billable units of a listing.
pub fn calculate_quote(pricing: PricingSnapshot, input: QuoteInput) -> (result: Result<
    QuoteBreakdown,
    QuoteError,
>)
    ensures
        input.units <= 0 ==> result == Err::<QuoteBreakdown, QuoteError>(QuoteError::InvalidUnits),
        input.units > 0 && has_negative_amount(pricing) ==> result == Err::<
            QuoteBreakdown,
            QuoteError,
        >(QuoteError::NegativeAmount),
        input.units > 0 && !has_negative_amount(pricing) && !quote_fits(pricing, input) ==> result
            == Err::<QuoteBreakdown, QuoteError>(QuoteError::Overflow),
        input.units > 0 && !has_negative_amount(pricing) && quote_fits(pricing, input) ==> (
        result matches Ok(q) && is_breakdown(q, pricing, input)),
{
    if input.units <= 0 {
        return Err(QuoteError::InvalidUnits);
    }
    if pricing.unit_price_cents < 0 || pricing.deposit_cents < 0 || pricing.delivery_fee_cents < 0
        || pricing.service_fee_bps < 0 {
        return Err(QuoteError::NegativeAmount);
    }
    proof {
        let b = quote_base(pricing, input);
        assert(b >= 0) by (nonlinear_arith)
            requires
                b == pricing.unit_price_cents * input.units,
                pricing.unit_price_cents >= 0,
                input.units > 0,
        ;
        assert(b * pricing.service_fee_bps >= 0) by (nonlinear_arith)
            requires
                b >= 0,
                pricing.service_fee_bps >= 0,
        ;
    }
    let base_cents = match pricing.unit_price_cents.checked_mul(input.units) {
        Some(value) => value,
        None => return Err(QuoteError::Overflow),
    };
    let fee_product = match base_cents.checked_mul(pricing.service_fee_bps) {
        Some(value) => value,
        None => return Err(QuoteError::Overflow),
    };
    let service_fee_cents = fee_product / 10_000;
    let delivery_fee_cents = if input.wants_delivery {
        pricing.delivery_fee_cents
    } else {
        0
    };
    let with_fee = match base_cents.checked_add(service_fee_cents) {
        Some(value) => value,
        None => return Err(QuoteError::Overflow),
    };
    let with_delivery = match with_fee.checked_add(delivery_fee_cents) {
        Some(value) => value,
        None => return Err(QuoteError::Overflow),
    };
    let total_cents = match with_delivery.checked_add(pricing.deposit_cents) {
        Some(value) => value,
        None => return Err(QuoteError::Overflow),
    };
    Ok(
        QuoteBreakdown {
            unit_price_cents: pricing.unit_price_cents,
            billable_units: input.units,
            base_cents,
            service_fee_cents,
            delivery_fee_cents,
            deposit_cents: pricing.deposit_cents,
            total_cents,
            currency: text("USD"),
        },
    )
}

/// The amounts of a quote: the base is the unit price times the units, the
/// service fee the base times the fee in basis points over 10 000 rounded
/// down, the delivery fee the listing's only when delivery is wanted, and the
/// total the sum of base, service fee, delivery fee and deposit.
pub proof fn lemma_quote_amounts(quote: QuoteBreakdown, pricing: PricingSnapshot, input: QuoteInput)
    requires
        is_breakdown(quote, pricing, input),
    ensures
        quote.base_cents == pricing.unit_price_cents * input.units,
        quote.service_fee_cents == pricing.unit_price_cents * input.units
            * pricing.service_fee_bps / 10_000,
        quote.delivery_fee_cents == (if input.wants_delivery {
            pricing.delivery_fee_cents
        } else {
            0
        }),
        quote.deposit_cents == pricing.deposit_cents,
        quote.total_cents == quote.base_cents + quote.service_fee_cents + quote.delivery_fee_cents
            + quote.deposit_cents,
{
}

} // verus!
