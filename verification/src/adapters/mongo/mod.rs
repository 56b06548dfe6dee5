pub mod profiles;
pub mod retry;
pub mod seed;
pub mod slots;

use vstd::prelude::*;

use crate::domain::order_state::{next_order_state, order_state_name, OrderAction, OrderState};
use crate::domain::pricing::{billing_unit_name, final_price, BillingUnit};
use crate::domain::quote::{fulfillment_name, FulfillmentMethod, PricingSnapshot, QuoteBreakdown};
use crate::ports::order_repository::{
    ListingPricing, PaymentEventOutcome, PaymentValidation, ReserveError, SavePricingProfile,
};
use crate::text::{text, text_eq};
use crate::timestamp::Timestamp;
use slots::{slot_boundaries, slot_outcome};

verus! {

/// A quote as an order document stores it.
#[derive(Debug, Clone)]
pub struct QuoteDocument {
    pub unit_price_cents: i64,
    pub billable_units: i64,
    pub billing_unit: String,
    pub base_cents: i64,
    pub service_fee_cents: i64,
    pub delivery_fee_cents: i64,
    pub deposit_cents: i64,
    pub total_cents: i64,
    pub currency: String,
}

/// The stored form of a quote billed per `billing_unit`.
pub fn quote_document(quote: &QuoteBreakdown, billing_unit: BillingUnit) -> (document: QuoteDocument)
    ensures
        document.unit_price_cents == quote.unit_price_cents,
        document.billable_units == quote.billable_units,
        document.billing_unit@ == billing_unit_name(billing_unit),
        document.base_cents == quote.base_cents,
        document.service_fee_cents == quote.service_fee_cents,
        document.delivery_fee_cents == quote.delivery_fee_cents,
        document.deposit_cents == quote.deposit_cents,
        document.total_cents == quote.total_cents,
        document.currency == quote.currency,
{
    QuoteDocument {
        unit_price_cents: quote.unit_price_cents,
        billable_units: quote.billable_units,
        billing_unit: text(billing_unit.as_str()),
        base_cents: quote.base_cents,
        service_fee_cents: quote.service_fee_cents,
        delivery_fee_cents: quote.delivery_fee_cents,
        deposit_cents: quote.deposit_cents,
        total_cents: quote.total_cents,
        currency: quote.currency.clone(),
    }
}

/// The fulfillment methods with the stored names `names`, or `None` where a
/// name is unknown.
pub open spec fn methods_named(names: Seq<Seq<char>>) -> Option<Seq<FulfillmentMethod>>
    decreases names.len(),
{
    if names.len() == 0 {
        Some(Seq::empty())
    } else {
        match methods_named(names.drop_last()) {
            Some(methods) => if exists|m: FulfillmentMethod| fulfillment_name(m) == names.last() {
                Some(methods.push(choose|m: FulfillmentMethod| fulfillment_name(m) == names.last()))
            } else {
                None
            },
            None => None,
        }
    }
}

proof fn lemma_fulfillment_names_distinct(a: FulfillmentMethod, b: FulfillmentMethod)
    requires
        fulfillment_name(a) == fulfillment_name(b),
    ensures
        a == b,
{
    reveal_strlit("pickup");
    reveal_strlit("delivery");
    reveal_strlit("owner_location");
    reveal_strlit("on_site");
    let x = fulfillment_name(a);
    let y = fulfillment_name(b);
    if a != b {
        assert(x.len() != y.len() || x[0] != y[0]);
    }
}

proof fn lemma_methods_named_stays_none(names: Seq<Seq<char>>, k: int)
    requires
        0 <= k <= names.len(),
        methods_named(names.subrange(0, k)) is None,
    ensures
        methods_named(names) is None,
    decreases names.len() - k,
{
    if k == names.len() {
        assert(names.subrange(0, k) =~= names);
    } else {
        assert(names.subrange(0, k + 1).drop_last() =~= names.subrange(0, k));
        lemma_methods_named_stays_none(names, k + 1);
    }
}

/// Reads stored fulfillment method names; an unknown name is invalid pricing.
pub fn parse_fulfillment_methods(names: &Vec<String>) -> (methods: Result<Vec<FulfillmentMethod>, ReserveError>)
    ensures
        match methods_named(names@.map_values(|n: String| n@)) {
            Some(ms) => methods matches Ok(v) && v@ == ms,
            None => methods matches Err(ReserveError::InvalidPricing),
        },
{
    let ghost view = names@.map_values(|n: String| n@);
    let mut methods: Vec<FulfillmentMethod> = Vec::new();
    let mut i: usize = 0;
    while i < names.len()
        invariant
            0 <= i <= names@.len(),
            view == names@.map_values(|n: String| n@),
            methods_named(view.subrange(0, i as int)) == Some(methods@),
        decreases names@.len() - i,
    {
        let ghost before = view.subrange(0, i as int);
        assert(view.subrange(0, i + 1).drop_last() =~= before);
        assert(view.subrange(0, i + 1).last() == names@[i as int]@);
        match FulfillmentMethod::from_name(names[i].as_str()) {
            Some(m) => {
                proof {
                    let c = choose|x: FulfillmentMethod| fulfillment_name(x) == names@[i as int]@;
                    lemma_fulfillment_names_distinct(c, m);
                }
                methods.push(m);
            },
            None => {
                proof {
                    lemma_methods_named_stays_none(view, i + 1);
                }
                return Err(ReserveError::InvalidPricing);
            },
        }
        i = i + 1;
    }
    assert(view.subrange(0, names@.len() as int) =~= view);
    Ok(methods)
}

/// What a listing and its pricing profile price it with: the amounts must be
/// non-negative, and the billing unit and every fulfillment method known.
pub fn listing_pricing(
    final_unit_price_cents: i64,
    deposit_cents: i64,
    delivery_fee_cents: i64,
    service_fee_bps: i64,
    billing_unit: &str,
    allowed_fulfillment_methods: &Vec<String>,
) -> (pricing: Result<ListingPricing, ReserveError>)
    ensures
        final_unit_price_cents < 0 || deposit_cents < 0 || delivery_fee_cents < 0 || service_fee_bps
            < 0 ==> pricing matches Err(ReserveError::InvalidPricing),
        pricing matches Ok(p) ==> {
            &&& p.snapshot == (PricingSnapshot {
                unit_price_cents: final_unit_price_cents,
                deposit_cents,
                delivery_fee_cents,
                service_fee_bps,
            })
            &&& billing_unit_name(p.billing_unit) == billing_unit@
            &&& methods_named(allowed_fulfillment_methods@.map_values(|n: String| n@)) == Some(
                p.allowed_fulfillment_methods@,
            )
        },
        !(final_unit_price_cents < 0 || deposit_cents < 0 || delivery_fee_cents < 0
            || service_fee_bps < 0) && (exists|u: BillingUnit| billing_unit_name(u) == billing_unit@)
            && methods_named(allowed_fulfillment_methods@.map_values(|n: String| n@)) is Some
            ==> pricing is Ok,
        pricing matches Err(e) ==> e is InvalidPricing,
{
    if final_unit_price_cents < 0 || deposit_cents < 0 || delivery_fee_cents < 0 || service_fee_bps
        < 0 {
        return Err(ReserveError::InvalidPricing);
    }
    let unit = match BillingUnit::try_from_name(billing_unit) {
        Ok(u) => u,
        Err(_) => {
            proof {
                assert forall|u: BillingUnit| billing_unit_name(u) != billing_unit@ by {
                    match u {
                        BillingUnit::ThirtyMinutes => {},
                        BillingUnit::Day => {},
                    }
                }
            }
            return Err(ReserveError::InvalidPricing);
        },
    };
    let methods = parse_fulfillment_methods(allowed_fulfillment_methods)?;
    Ok(
        ListingPricing {
            snapshot: PricingSnapshot {
                unit_price_cents: final_unit_price_cents,
                deposit_cents,
                delivery_fee_cents,
                service_fee_bps,
            },
            billing_unit: unit,
            allowed_fulfillment_methods: methods,
        },
    )
}

/// Who may take which action on an order: the seller confirms and fulfills,
/// the buyer activates and returns, either completes or cancels, and nobody
/// marks an order paid or expired by hand.
pub open spec fn may_act(action: OrderAction, is_seller: bool, is_buyer: bool) -> bool {
    match action {
        OrderAction::Confirm | OrderAction::Fulfill => is_seller,
        OrderAction::Activate | OrderAction::Return => is_buyer,
        OrderAction::Complete | OrderAction::Cancel => is_seller || is_buyer,
        OrderAction::MarkPaid | OrderAction::Expire => false,
    }
}

/// The outcome of a participant's action on an order stored in state
/// `state_name`: an unknown state or a move the state machine refuses is an
/// invalid transition, an action by the wrong participant is forbidden.
pub open spec fn participant_transition(
    state_name: Seq<char>,
    action: OrderAction,
    is_seller: bool,
    is_buyer: bool,
    result: Result<(OrderState, OrderState), ReserveError>,
) -> bool {
    if forall|s: OrderState| order_state_name(s) != state_name {
        result matches Err(ReserveError::InvalidTransition)
    } else if !may_act(action, is_seller, is_buyer) {
        result matches Err(ReserveError::Forbidden)
    } else {
        let current = choose|s: OrderState| order_state_name(s) == state_name;
        match next_order_state(current, action) {
            Some(next) => result matches Ok((c, n)) && c == current && n == next,
            None => result matches Err(ReserveError::InvalidTransition),
        }
    }
}

/// Decides a participant's action on a stored order: the current and next state.
pub fn decide_transition(
    state_name: &str,
    action: OrderAction,
    is_seller: bool,
    is_buyer: bool,
) -> (result: Result<(OrderState, OrderState), ReserveError>)
    ensures
        participant_transition(state_name@, action, is_seller, is_buyer, result),
{
    let current = match OrderState::try_from_name(state_name) {
        Ok(s) => s,
        Err(_) => return Err(ReserveError::InvalidTransition),
    };
    proof {
        let c = choose|s: OrderState| order_state_name(s) == state_name@;
        crate::domain::order_state::lemma_state_names_round_trip(c, current);
    }
    let authorized = match action {
        OrderAction::Confirm | OrderAction::Fulfill => is_seller,
        OrderAction::Activate | OrderAction::Return => is_buyer,
        OrderAction::Complete | OrderAction::Cancel => is_seller || is_buyer,
        OrderAction::MarkPaid | OrderAction::Expire => false,
    };
    if !authorized {
        return Err(ReserveError::Forbidden);
    }
    match current.transition(action) {
        Ok(next) => Ok((current, next)),
        Err(_) => Err(ReserveError::InvalidTransition),
    }
}

/// The checks a reservation passes before anything is written: the buyer is
/// not the seller and the listing offers the chosen fulfillment.
pub fn check_reservation(
    buyer_is_owner: bool,
    listing_methods: &Vec<String>,
    fulfillment: FulfillmentMethod,
) -> (checked: Result<(), ReserveError>)
    ensures
        buyer_is_owner ==> checked matches Err(ReserveError::SelfTransaction),
        !buyer_is_owner && !(exists|i: int| 0 <= i < listing_methods@.len()
            && #[trigger] listing_methods@[i]@ == fulfillment_name(fulfillment)) ==> checked matches Err(
            ReserveError::InvalidPricing,
        ),
        !buyer_is_owner && (exists|i: int| 0 <= i < listing_methods@.len()
            && #[trigger] listing_methods@[i]@ == fulfillment_name(fulfillment)) ==> checked is Ok,
{
    if buyer_is_owner {
        return Err(ReserveError::SelfTransaction);
    }
    let name = fulfillment.as_str();
    let mut i: usize = 0;
    while i < listing_methods.len()
        invariant
            0 <= i <= listing_methods@.len(),
            !buyer_is_owner,
            name@ == fulfillment_name(fulfillment),
            forall|j: int| 0 <= j < i ==> #[trigger] listing_methods@[j]@ != fulfillment_name(
                fulfillment,
            ),
        decreases listing_methods@.len() - i,
    {
        if text_eq(listing_methods[i].as_str(), name) {
            return Ok(());
        }
        i = i + 1;
    }
    Err(ReserveError::InvalidPricing)
}

/// How a reservation holds its listing.
#[derive(Debug, Clone)]
pub enum ReservationPlan {
    /// Rentals and workspaces occupy the half-hour slots of their window.
    Timed(Vec<Timestamp>),
    /// Second-hand items take one unit of inventory.
    SecondHand,
}

/// How a reservation of a listing of type `listing_type` holds it: timed
/// listings need a window of whole UTC half hours, second-hand items take
/// inventory, and any other type cannot be reserved.
pub fn plan_reservation(
    listing_type: &str,
    start_at: Option<Timestamp>,
    end_at: Option<Timestamp>,
) -> (plan: Result<ReservationPlan, ReserveError>)
    ensures
        (listing_type@ == "rental"@ || listing_type@ == "workspace"@) ==> match (start_at, end_at) {
            (Some(start), Some(end)) => match plan {
                Ok(ReservationPlan::Timed(slots)) => slot_outcome(start, end, Ok(slots)),
                Err(e) => e is Unavailable && !(exists|slots: Vec<Timestamp>|
                    slot_outcome(start, end, Ok(slots))),
                _ => false,
            },
            _ => plan matches Err(ReserveError::Unavailable),
        },
        !(listing_type@ == "rental"@ || listing_type@ == "workspace"@) && listing_type@
            == "second_hand"@ ==> plan matches Ok(ReservationPlan::SecondHand),
        !(listing_type@ == "rental"@ || listing_type@ == "workspace"@ || listing_type@
            == "second_hand"@) ==> plan matches Err(ReserveError::Unavailable),
{
    if text_eq(listing_type, "rental") || text_eq(listing_type, "workspace") {
        match (start_at, end_at) {
            (Some(start), Some(end)) => match slot_boundaries(start, end) {
                Ok(slots) => Ok(ReservationPlan::Timed(slots)),
                Err(_) => Err(ReserveError::Unavailable),
            },
            _ => Err(ReserveError::Unavailable),
        }
    } else if text_eq(listing_type, "second_hand") {
        Ok(ReservationPlan::SecondHand)
    } else {
        Err(ReserveError::Unavailable)
    }
}

/// The units of stock to put back after `expired` pending orders of a
/// listing expired: none for none, each one's unit otherwise; a count that
/// does not fit an `i64` makes the listing unavailable.
pub fn expired_holds_restock(expired: u64) -> (restock: Result<Option<i64>, ReserveError>)
    ensures
        expired == 0 ==> restock matches Ok(None),
        0 < expired <= i64::MAX ==> (restock matches Ok(Some(n)) && n == expired),
        expired > i64::MAX ==> restock matches Err(ReserveError::Unavailable),
{
    if expired == 0 {
        Ok(None)
    } else if expired <= 9_223_372_036_854_775_807 {
        Ok(Some(expired as i64))
    } else {
        Err(ReserveError::Unavailable)
    }
}

/// A second-hand reservation holds only when its stock update took exactly
/// one unit; otherwise the item is out of stock.
pub fn stock_taken(modified: u64) -> (taken: Result<(), ReserveError>)
    ensures
        modified == 1 ==> taken is Ok,
        modified != 1 ==> taken matches Err(ReserveError::Unavailable),
{
    if modified == 1 {
        Ok(())
    } else {
        Err(ReserveError::Unavailable)
    }
}

/// A state change holds only when the update, which requires the order to be
/// still in the state it was read in, changed exactly one order; otherwise a
/// concurrent change won and the transition is refused.
pub fn state_written(modified: u64) -> (written: Result<(), ReserveError>)
    ensures
        modified == 1 ==> written is Ok,
        modified != 1 ==> written matches Err(ReserveError::InvalidTransition),
{
    if modified == 1 {
        Ok(())
    } else {
        Err(ReserveError::InvalidTransition)
    }
}

/// What happens to the hold an order has on its listing: its booking slots
/// and, for a second-hand item, the unit of stock it took.
#[derive(Debug, Clone, Copy, PartialEq, Eq, Structural)]
pub enum HoldEffect {
    /// The hold stays as it is.
    Keep,
    /// The slots stop expiring: the booking is paid for.
    MakePermanent,
    /// The slots are released and a second-hand unit goes back in stock.
    Release,
}

/// The hold after an order moves to `next`: a cancelled order gives its
/// listing back; any other move keeps it.
pub fn hold_after_transition(next: OrderState) -> (effect: HoldEffect)
    ensures
        effect == (if next == OrderState::Cancelled {
            HoldEffect::Release
        } else {
            HoldEffect::Keep
        }),
{
    if next == OrderState::Cancelled {
        HoldEffect::Release
    } else {
        HoldEffect::Keep
    }
}

/// The hold after a payment was processed: an applied payment makes the
/// booking permanent, a payment that came after the hold expired gives the
/// listing back, and any other outcome keeps the hold.
pub fn hold_after_payment(outcome: PaymentEventOutcome) -> (effect: HoldEffect)
    ensures
        effect == (match outcome {
            PaymentEventOutcome::Applied => HoldEffect::MakePermanent,
            PaymentEventOutcome::Rejected(PaymentValidation::Expired) => HoldEffect::Release,
            _ => HoldEffect::Keep,
        }),
{
    match outcome {
        PaymentEventOutcome::Applied => HoldEffect::MakePermanent,
        PaymentEventOutcome::Rejected(PaymentValidation::Expired) => HoldEffect::Release,
        _ => HoldEffect::Keep,
    }
}

/// The event a payment leaves in an order's history.
pub open spec fn payment_event_name(outcome: PaymentEventOutcome) -> Seq<char> {
    match outcome {
        PaymentEventOutcome::Applied => "payment_succeeded"@,
        PaymentEventOutcome::MissingOrder => "payment_missing_order"@,
        PaymentEventOutcome::Rejected(PaymentValidation::WrongState) => "payment_rejected_wrong_state"@,
        PaymentEventOutcome::Rejected(PaymentValidation::Expired) => "payment_rejected_expired"@,
        PaymentEventOutcome::Rejected(PaymentValidation::AmountMismatch) => "payment_rejected_amount_mismatch"@,
        PaymentEventOutcome::Rejected(PaymentValidation::CurrencyMismatch) => "payment_rejected_currency_mismatch"@,
        _ => Seq::empty(),
    }
}

/// Whether an outcome is one that a processed payment records.
pub open spec fn is_recorded_outcome(outcome: PaymentEventOutcome) -> bool {
    outcome is Applied || outcome is MissingOrder || (outcome matches PaymentEventOutcome::Rejected(v) && v
        != PaymentValidation::Accepted)
}

pub fn payment_event_type(outcome: PaymentEventOutcome) -> (name: &'static str)
    requires
        is_recorded_outcome(outcome),
    ensures
        name@ == payment_event_name(outcome),
{
    match outcome {
        PaymentEventOutcome::Applied => "payment_succeeded",
        PaymentEventOutcome::MissingOrder => "payment_missing_order",
        PaymentEventOutcome::Rejected(PaymentValidation::WrongState) => "payment_rejected_wrong_state",
        PaymentEventOutcome::Rejected(PaymentValidation::Expired) => "payment_rejected_expired",
        PaymentEventOutcome::Rejected(PaymentValidation::AmountMismatch) => "payment_rejected_amount_mismatch",
        PaymentEventOutcome::Rejected(PaymentValidation::CurrencyMismatch) => "payment_rejected_currency_mismatch",
        _ => vstd::pervasive::unreached(),
    }
}

/// The state an order is recorded as after a processed payment: paid when it
/// was applied, expired when its hold had run out, otherwise unchanged.
pub fn payment_to_state(outcome: PaymentEventOutcome, from_state: &str) -> (to_state: String)
    ensures
        outcome is Applied ==> to_state@ == "paid"@,
        outcome == PaymentEventOutcome::Rejected(PaymentValidation::Expired) ==> to_state@
            == "expired"@,
        !(outcome is Applied) && outcome != PaymentEventOutcome::Rejected(
            PaymentValidation::Expired,
        ) ==> to_state@ == from_state@,
{
    match outcome {
        PaymentEventOutcome::Applied => text("paid"),
        PaymentEventOutcome::Rejected(PaymentValidation::Expired) => text("expired"),
        _ => text(from_state),
    }
}

/// A saved pricing profile must come from the listing's owner, and its final
/// price must be the recommendation adjusted by the seller's adjustment.
pub fn check_pricing_profile(owner_matches: bool, profile: &SavePricingProfile) -> (checked: Result<
    (),
    ReserveError,
>)
    ensures
        !owner_matches ==> checked matches Err(ReserveError::Forbidden),
        owner_matches ==> match final_price(
            profile.recommendation.recommended_unit_price_cents,
            profile.seller_adjustment_cents,
        ) {
            Ok(p) => if p == profile.final_unit_price_cents {
                checked is Ok
            } else {
                checked matches Err(ReserveError::InvalidPricing)
            },
            Err(_) => checked matches Err(ReserveError::InvalidPricing),
        },
{
    if !owner_matches {
        return Err(ReserveError::Forbidden);
    }
    match profile.recommendation.final_price_cents(profile.seller_adjustment_cents) {
        Ok(price) => if price != profile.final_unit_price_cents {
            Err(ReserveError::InvalidPricing)
        } else {
            Ok(())
        },
        Err(_) => Err(ReserveError::InvalidPricing),
    }
}

/// MongoDB reports a write that breaks a unique index with this code.
pub const DUPLICATE_KEY_CODE: i32 = 11_000;

/// Whether any of the write error codes is a duplicate key.
pub fn is_duplicate_key(codes: &Vec<i32>) -> (duplicate: bool)
    ensures
        duplicate == exists|i: int| 0 <= i < codes@.len() && #[trigger] codes@[i] == DUPLICATE_KEY_CODE,
{
    let mut i: usize = 0;
    while i < codes.len()
        invariant
            0 <= i <= codes@.len(),
            forall|j: int| 0 <= j < i ==> #[trigger] codes@[j] != DUPLICATE_KEY_CODE,
        decreases codes@.len() - i,
    {
        if codes[i] == DUPLICATE_KEY_CODE {
            return true;
        }
        i = i + 1;
    }
    false
}

} // verus!
