//! Orders: a failed checkout is answered without the provider's details.
use vstd::prelude::*;

use crate::domain::order_state::{OrderAction, OrderState};
use crate::domain::quote::FulfillmentMethod;
use crate::error::{answers, ApiError};
use crate::http::quotes::PreparedQuote;
use crate::ports::order_repository::{CreateOrder, ReservedOrder};
use crate::ports::payment_gateway::{CheckoutRequest, CheckoutSession, PaymentError};
use crate::timestamp::Timestamp;

verus! {

/// The answer to a placed order: where to pay, and until when it is held.
#[derive(Debug, Clone)]
pub struct CreateOrderResponse {
    pub order_id: u128,
    pub reservation_expires_at: Timestamp,
    pub total_cents: i64,
    pub checkout_url: String,
}

/// A participant's request to move an order on.
#[derive(Debug, Clone, Copy)]
pub struct TransitionRequest {
    pub action: OrderAction,
}

/// The state an order moved to.
#[derive(Debug, Clone, Copy)]
pub struct TransitionResponse {
    pub status: OrderState,
}

/// The reservation a buyer asks for: the listing, the quoted window and
/// fulfillment, at the quoted price.
pub fn order_for(
    listing_id: u128,
    buyer_id: u128,
    fulfillment: FulfillmentMethod,
    prepared: PreparedQuote,
) -> (order: CreateOrder)
    ensures
        order.listing_id == listing_id,
        order.buyer_id == buyer_id,
        order.start_at == Some(prepared.start_at),
        order.end_at == Some(prepared.end_at),
        order.fulfillment == fulfillment,
        order.quote == prepared.quote,
        order.billing_unit == prepared.billing_unit,
{
    CreateOrder {
        listing_id,
        buyer_id,
        start_at: Some(prepared.start_at),
        end_at: Some(prepared.end_at),
        fulfillment,
        quote: prepared.quote,
        billing_unit: prepared.billing_unit,
    }
}

/// The payment asked for a reserved order: the quoted total.
pub fn checkout_for(reserved: ReservedOrder, total_cents: i64) -> (request: CheckoutRequest)
    ensures
        request.order_id == reserved.order_id,
        request.amount_cents == total_cents,
{
    CheckoutRequest { order_id: reserved.order_id, amount_cents: total_cents }
}

/// The answer to a placed order.
pub fn order_response(reserved: ReservedOrder, total_cents: i64, checkout: CheckoutSession) -> (response: CreateOrderResponse)
    ensures
        response.order_id == reserved.order_id,
        response.reservation_expires_at == reserved.expires_at,
        response.total_cents == total_cents,
        response.checkout_url == checkout.checkout_url,
{
    CreateOrderResponse {
        order_id: reserved.order_id,
        reservation_expires_at: reserved.expires_at,
        total_cents,
        checkout_url: checkout.checkout_url,
    }
}

pub fn map_payment_error(error: PaymentError) -> (answer: ApiError)
    ensures
        answers(
            answer,
            503,
            "PAYMENT_UNAVAILABLE"@,
            "Payment setup is temporarily unavailable"@,
        ),
{
    ApiError::new(503, "PAYMENT_UNAVAILABLE", "Payment setup is temporarily unavailable")
}

} // verus!
