use core_api::adapters::mongo::{expired_holds_restock, stock_taken, state_written};
use core_api::ports::order_repository::{StoredOrderPayment, VerifiedPayment};
use core_api::ports::payment_steps::{
    PaymentProgress, PaymentStep, PaymentStoreAnswer, begin_payment, payment_step,
};
use core_api::adapters::mongo::decide_transition;
use core_api::domain::order_state::OrderAction;
use core_api::adapters::mongo::{HoldEffect, hold_after_payment, hold_after_transition};
use core_api::domain::pricing::{Condition, Ps5Input, Ps5Model, recommend};
use core_api::ports::order_repository::{PaymentEventOutcome, PaymentValidation};
use core_api::adapters::mongo::retry::{
    AttemptOutcome, MAX_TRANSACTION_ATTEMPTS, NextStep, after_attempt, retries_exhausted,
    retry_commit,
};
use core_api::adapters::postgres_orders::{check_window, sql_error, state_change_event};
use core_api::adapters::stripe::{checkout_form, checkout_session};
use core_api::auth::{AuthError, AuthUser, auth_answer, check_bearer, user_endpoint};
use core_api::domain::order_state::OrderState;
use core_api::domain::pricing::{
    BillingUnit, LocationTier, PricingCategoryInput, PricingError, WorkspaceInput,
};
use core_api::domain::quote::{FulfillmentMethod, PricingSnapshot};
use core_api::error::ApiError;
use core_api::http::auth_extract::{authenticated, bearer_token};
use core_api::http::health::readiness;
use core_api::http::orders::map_payment_error;
use core_api::http::pricing::{
    SavePricingRequest, map_pricing_error, price_listing, validate_fulfillment,
};
use core_api::http::profile::map_profile_error;
use core_api::http::quotes::{
    map_repository_error, parse_rental_window, prepare_quote,
};
use core_api::http::stripe_webhook::received_payment;
use core_api::ids::{parse_uuid, uuid_string};
use core_api::ports::order_repository::{ListingPricing, ReserveError};
use core_api::ports::payment_gateway::{CheckoutRequest, PaymentError};
use core_api::ports::profile_repository::ProfileError;
use core_api::text::trim;
use core_api::timestamp::{Timestamp, parse_rfc3339};

const MINUTE: i128 = 60_000_000_000;

fn workspace() -> PricingCategoryInput {
    PricingCategoryInput::Workspace(WorkspaceInput {
        square_feet: 500,
        location_tier: LocationTier::Suburban,
        cleanliness: 3,
        equipment_score: 0,
        amenity_count: 0,
        billing_unit: BillingUnit::ThirtyMinutes,
    })
}

fn listing_pricing(methods: Vec<FulfillmentMethod>) -> ListingPricing {
    ListingPricing {
        snapshot: PricingSnapshot {
            unit_price_cents: 2_500,
            deposit_cents: 10_000,
            delivery_fee_cents: 1_500,
            service_fee_bps: 600,
        },
        billing_unit: BillingUnit::ThirtyMinutes,
        allowed_fulfillment_methods: methods,
    }
}

fn assert_answer(error: &ApiError, status: u16, code: &str) {
    assert_eq!(error.status, status);
    assert_eq!(error.code, code);
}

#[test]
fn rfc3339_timestamps_are_read_with_their_offset() {
    let utc = parse_rfc3339("2026-07-16T10:00:00Z").unwrap();
    assert_eq!(utc.unix_nanos, 1_784_196_000 * 1_000_000_000);
    assert_eq!(utc.utc_offset_seconds, 0);
    let east = parse_rfc3339("2026-07-16T12:00:00+02:00").unwrap();
    assert_eq!(east.unix_nanos, utc.unix_nanos);
    assert_eq!(east.utc_offset_seconds, 7_200);
    assert!(parse_rfc3339("tomorrow").is_none());
}

#[test]
fn rental_window_needs_both_ends_in_order() {
    let (start, end) = parse_rental_window(
        Some("2026-07-16T10:00:00Z".to_owned()),
        Some("2026-07-16T11:00:00Z".to_owned()),
    )
    .unwrap();
    assert_eq!(end.unix_nanos - start.unix_nanos, 60 * MINUTE);
    for (start, end) in [
        (None, Some("2026-07-16T11:00:00Z")),
        (Some("2026-07-16T10:00:00Z"), None),
        (Some("2026-07-16T11:00:00Z"), Some("2026-07-16T10:00:00Z")),
        (Some("2026-07-16T10:00:00Z"), Some("2026-07-16T10:00:00Z")),
        (Some("not a time"), Some("2026-07-16T10:00:00Z")),
    ] {
        let error = parse_rental_window(start.map(str::to_owned), end.map(str::to_owned))
            .unwrap_err();
        assert_answer(&error, 422, "INVALID_RENTAL_WINDOW");
    }
}

#[test]
fn quote_for_a_window_matches_the_domain_rules() {
    let start = Timestamp::utc(0);
    let end = Timestamp::utc(31 * MINUTE);
    let prepared = prepare_quote(
        Ok(listing_pricing(vec![FulfillmentMethod::Pickup, FulfillmentMethod::Delivery])),
        FulfillmentMethod::Delivery,
        start,
        end,
    )
    .unwrap();
    assert_eq!(prepared.quote.billable_units, 2);
    assert_eq!(prepared.quote.base_cents, 5_000);
    assert_eq!(prepared.quote.service_fee_cents, 300);
    assert_eq!(prepared.quote.delivery_fee_cents, 1_500);
    assert_eq!(prepared.quote.total_cents, 16_800);
    assert_eq!(prepared.start_at, start);
    assert_eq!(prepared.end_at, end);

    let pickup = prepare_quote(
        Ok(listing_pricing(vec![FulfillmentMethod::Pickup])),
        FulfillmentMethod::Pickup,
        start,
        end,
    )
    .unwrap();
    assert_eq!(pickup.quote.delivery_fee_cents, 0);
    assert_eq!(pickup.quote.total_cents, 15_300);
}

#[test]
fn quote_failures_get_their_own_answers() {
    let start = Timestamp::utc(0);
    let end = Timestamp::utc(MINUTE);
    let error = prepare_quote(
        Ok(listing_pricing(vec![FulfillmentMethod::Pickup])),
        FulfillmentMethod::Delivery,
        start,
        end,
    )
    .unwrap_err();
    assert_answer(&error, 422, "FULFILLMENT_NOT_ALLOWED");

    let error = prepare_quote(
        Err(ReserveError::PricingNotFound),
        FulfillmentMethod::Pickup,
        start,
        end,
    )
    .unwrap_err();
    assert_answer(&error, 404, "PRICING_PROFILE_NOT_FOUND");

    let mut negative = listing_pricing(vec![FulfillmentMethod::Pickup]);
    negative.snapshot.deposit_cents = -1;
    let error = prepare_quote(Ok(negative), FulfillmentMethod::Pickup, start, end).unwrap_err();
    assert_answer(&error, 422, "INVALID_QUOTE_INPUT");

    let error = prepare_quote(
        Ok(listing_pricing(vec![FulfillmentMethod::Pickup])),
        FulfillmentMethod::Pickup,
        end,
        start,
    )
    .unwrap_err();
    assert_answer(&error, 422, "INVALID_RENTAL_WINDOW");
}

#[test]
fn store_refusals_are_answered_without_details() {
    let cases = [
        (ReserveError::NotFound, 404, "LISTING_NOT_FOUND"),
        (ReserveError::Unavailable, 409, "LISTING_UNAVAILABLE"),
        (ReserveError::SelfTransaction, 409, "SELF_TRANSACTION"),
        (ReserveError::Forbidden, 403, "ACTION_FORBIDDEN"),
        (ReserveError::InvalidTransition, 409, "INVALID_ORDER_TRANSITION"),
        (ReserveError::InvalidPricing, 422, "INVALID_PRICING_PROFILE"),
        (ReserveError::PricingNotFound, 404, "PRICING_PROFILE_NOT_FOUND"),
        (ReserveError::Database("mongodb://secret".to_owned()), 503, "SERVICE_UNAVAILABLE"),
    ];
    for (error, status, code) in cases {
        let answer = map_repository_error(error);
        assert_answer(&answer, status, code);
        assert!(!answer.message.contains("mongodb"));
    }
    assert_answer(&map_payment_error(PaymentError::Unavailable), 503, "PAYMENT_UNAVAILABLE");
    assert_answer(&map_profile_error(ProfileError::NotFound), 404, "PROFILE_NOT_FOUND");
    assert_answer(&map_profile_error(ProfileError::Invalid), 400, "INVALID_PROFILE");
    assert_answer(&map_profile_error(ProfileError::Unavailable), 503, "PROFILE_UNAVAILABLE");
}

#[test]
fn readiness_hides_store_details() {
    assert_eq!(readiness(Ok(())).unwrap().status, "ready");
    assert_eq!(core_api::http::health::get().status, "ok");
    let error = readiness(Err(ReserveError::Database("mongodb://secret".to_owned()))).unwrap_err();
    assert_answer(&error, 503, "DATABASE_UNAVAILABLE");
    assert!(!error.message.contains("mongodb://"));
}

#[test]
fn bearer_tokens_need_the_bearer_scheme_and_a_value() {
    assert_eq!(bearer_token(Some("Bearer good-token")).unwrap(), "good-token");
    for header in [None, Some(""), Some("Bearer "), Some("Basic abc"), Some("bearer abc")] {
        let error = bearer_token(header).unwrap_err();
        assert_answer(&error, 401, "AUTH_REQUIRED");
        assert_eq!(error.message, "Sign in to continue");
    }
    let user = AuthUser { user_id: 7 };
    assert_eq!(authenticated(Ok(user)).unwrap(), user);
    assert_answer(&authenticated(Err(AuthError::Unavailable)).unwrap_err(), 401, "AUTH_REQUIRED");
}

#[test]
fn auth_service_answers_decide_the_caller() {
    assert_eq!(check_bearer(""), Err(AuthError::Missing));
    assert_eq!(check_bearer("token"), Ok(()));
    assert_eq!(auth_answer(200, Some(9)), Ok(AuthUser { user_id: 9 }));
    assert_eq!(auth_answer(200, None), Err(AuthError::Unavailable));
    assert_eq!(auth_answer(401, Some(9)), Err(AuthError::Invalid));
    assert_eq!(auth_answer(403, None), Err(AuthError::Invalid));
    assert_eq!(auth_answer(500, Some(9)), Err(AuthError::Unavailable));
    assert_eq!(
        user_endpoint("https://example.supabase.co//"),
        "https://example.supabase.co/auth/v1/user"
    );
    assert_eq!(user_endpoint("http://auth"), "http://auth/auth/v1/user");
}

#[test]
fn fulfillment_must_suit_the_category() {
    let ps5 = core_api::domain::pricing::PricingCategoryInput::Ps5(
        core_api::domain::pricing::Ps5Input {
            model: core_api::domain::pricing::Ps5Model::Slim,
            age_months: 6,
            condition: core_api::domain::pricing::Condition::Good,
            cleanliness: 4,
            fully_operational: true,
            missing_nonessential_features: 0,
            controller_count: 1,
            billing_unit: BillingUnit::Day,
        },
    );
    assert!(validate_fulfillment(&ps5, &vec![FulfillmentMethod::Pickup, FulfillmentMethod::Delivery]).is_ok());
    for methods in [
        vec![],
        vec![FulfillmentMethod::Pickup, FulfillmentMethod::Pickup],
        vec![FulfillmentMethod::OnSite],
    ] {
        assert_answer(&validate_fulfillment(&ps5, &methods).unwrap_err(), 422, "FULFILLMENT_NOT_ALLOWED");
    }
    assert!(validate_fulfillment(&workspace(), &vec![FulfillmentMethod::OnSite]).is_ok());
    assert_answer(
        &validate_fulfillment(&workspace(), &vec![FulfillmentMethod::OnSite, FulfillmentMethod::Delivery]).unwrap_err(),
        422,
        "FULFILLMENT_NOT_ALLOWED",
    );
}

#[test]
fn pricing_a_listing_applies_the_seller_adjustment() {
    let request = SavePricingRequest {
        attributes: workspace(),
        seller_adjustment_cents: 500,
        allowed_fulfillment_methods: vec![FulfillmentMethod::OnSite],
    };
    let profile = price_listing(1, 2, request).unwrap();
    assert_eq!(profile.listing_id, 1);
    assert_eq!(profile.owner_id, 2);
    assert_eq!(profile.recommendation.recommended_unit_price_cents, 1_300);
    assert_eq!(profile.final_unit_price_cents, 1_800);

    let too_much = SavePricingRequest {
        attributes: workspace(),
        seller_adjustment_cents: 501,
        allowed_fulfillment_methods: vec![FulfillmentMethod::OnSite],
    };
    assert_answer(&price_listing(1, 2, too_much).unwrap_err(), 422, "SELLER_ADJUSTMENT_OUT_OF_RANGE");

    let delivered = SavePricingRequest {
        attributes: workspace(),
        seller_adjustment_cents: 0,
        allowed_fulfillment_methods: vec![FulfillmentMethod::Delivery],
    };
    assert_answer(&price_listing(1, 2, delivered).unwrap_err(), 422, "FULFILLMENT_NOT_ALLOWED");
    assert_answer(&map_pricing_error(PricingError::NotOperational), 422, "INVALID_PRICING_ATTRIBUTES");
}

#[test]
fn uuids_round_trip_through_their_text() {
    let value = 0xcccccccc_cccc_cccc_cccc_cccccccccccc_u128;
    assert_eq!(uuid_string(value), "cccccccc-cccc-cccc-cccc-cccccccccccc");
    assert_eq!(parse_uuid(&uuid_string(value)), Some(value));
    assert_eq!(uuid_string(1), "00000000-0000-0000-0000-000000000001");
    assert_eq!(parse_uuid("not-a-uuid"), None);
    assert_eq!(trim("  padded\t"), "padded");
}

#[test]
fn checkout_form_charges_only_positive_amounts() {
    let request = CheckoutRequest { order_id: 0xcccccccc_cccc_cccc_cccc_cccccccccccc, amount_cents: 16_800 };
    let form = checkout_form(request, "http://ok", "http://cancel").unwrap();
    assert_eq!(form.len(), 8);
    assert_eq!(form[0], ("mode".to_owned(), "payment".to_owned()));
    assert_eq!(form[5], ("line_items[0][price_data][unit_amount]".to_owned(), "16800".to_owned()));
    assert_eq!(form[7], ("metadata[order_id]".to_owned(), "cccccccc-cccc-cccc-cccc-cccccccccccc".to_owned()));
    let free = CheckoutRequest { order_id: 1, amount_cents: 0 };
    assert_eq!(checkout_form(free, "a", "b"), Err(PaymentError::InvalidAmount));
    let session = checkout_session(true, Some(("cs_1".to_owned(), "https://pay".to_owned()))).unwrap();
    assert_eq!(session.checkout_url, "https://pay");
    assert_eq!(checkout_session(false, Some(("cs_1".to_owned(), "u".to_owned()))), Err(PaymentError::Unavailable));
    assert_eq!(checkout_session(true, None), Err(PaymentError::Unavailable));
}

#[test]
fn postgres_rules_for_conflicts_windows_and_history() {
    assert!(matches!(sql_error(Some("23P01"), "x".to_owned()), ReserveError::Unavailable));
    assert!(matches!(sql_error(Some("23505"), "x".to_owned()), ReserveError::Unavailable));
    assert!(matches!(sql_error(Some("42P01"), "x".to_owned()), ReserveError::Database(m) if m == "x"));
    assert!(matches!(sql_error(None, "y".to_owned()), ReserveError::Database(m) if m == "y"));
    assert!(check_window(Some(Timestamp::utc(1)), Some(Timestamp::utc(1))).is_err());
    assert!(check_window(Some(Timestamp::utc(1)), Some(Timestamp::utc(2))).is_ok());
    assert!(check_window(None, Some(Timestamp::utc(0))).is_ok());
    assert_eq!(state_change_event(OrderState::Confirmed), "state_changed_to_confirmed");
}

#[test]
fn webhooks_need_a_signature_header() {
    let error = received_payment(None, b"{}", b"whsec", 0, None).unwrap_err();
    assert_answer(&error, 400, "INVALID_WEBHOOK");
    let error = received_payment(Some("t=0,v1=00"), b"{}", b"whsec", 0, None).unwrap_err();
    assert_answer(&error, 400, "INVALID_WEBHOOK");
}

#[test]
fn transient_transaction_failures_are_retried_eight_times_at_most() {
    let transient = || AttemptOutcome::DriverFailed { transient: true, message: "busy".to_owned() };
    let pauses: Vec<u64> = (0..MAX_TRANSACTION_ATTEMPTS - 1)
        .map(|attempt| match after_attempt(attempt, transient()) {
            NextStep::RetryAfter(ms) => ms,
            other => panic!("attempt {attempt} should be retried, got {other:?}"),
        })
        .collect();
    assert_eq!(pauses, vec![2, 8, 18, 32, 50, 72, 98]);
    assert!(matches!(
        after_attempt(MAX_TRANSACTION_ATTEMPTS - 1, transient()),
        NextStep::Finish(Err(ReserveError::Database(m))) if m == "busy"
    ));
    assert!(matches!(
        after_attempt(0, AttemptOutcome::DriverFailed { transient: false, message: "down".to_owned() }),
        NextStep::Finish(Err(ReserveError::Database(m))) if m == "down"
    ));
    assert!(matches!(
        after_attempt(3, AttemptOutcome::Refused(ReserveError::Unavailable)),
        NextStep::Finish(Err(ReserveError::Unavailable))
    ));
    assert!(matches!(retries_exhausted(), ReserveError::Database(m) if m == "transaction retry limit exceeded"));
    assert!(retry_commit(true, 0));
    assert!(retry_commit(true, 1));
    assert!(!retry_commit(true, 2));
    assert!(!retry_commit(false, 0));
}

#[test]
fn holds_end_the_given_minutes_later() {
    let later = core_api::timestamp::plus_minutes(
        Timestamp { unix_nanos: 5, utc_offset_seconds: 3_600 },
        30,
    );
    assert_eq!(later.unix_nanos, 5 + 30 * MINUTE);
    assert_eq!(later.utc_offset_seconds, 3_600);
}

#[test]
fn holds_are_released_on_cancel_or_expiry_and_kept_when_paid() {
    assert_eq!(hold_after_transition(OrderState::Cancelled), HoldEffect::Release);
    assert_eq!(hold_after_transition(OrderState::Confirmed), HoldEffect::Keep);
    assert_eq!(hold_after_payment(PaymentEventOutcome::Applied), HoldEffect::MakePermanent);
    assert_eq!(
        hold_after_payment(PaymentEventOutcome::Rejected(PaymentValidation::Expired)),
        HoldEffect::Release
    );
    assert_eq!(
        hold_after_payment(PaymentEventOutcome::Rejected(PaymentValidation::AmountMismatch)),
        HoldEffect::Keep
    );
    assert_eq!(hold_after_payment(PaymentEventOutcome::Duplicate), HoldEffect::Keep);
}

#[test]
fn better_listings_are_never_recommended_less() {
    let console = |condition, cleanliness, controller_count| {
        recommend(PricingCategoryInput::Ps5(Ps5Input {
            model: Ps5Model::Slim,
            age_months: 14,
            condition,
            cleanliness,
            fully_operational: true,
            missing_nonessential_features: 0,
            controller_count,
            billing_unit: BillingUnit::Day,
        }))
        .unwrap()
        .recommended_unit_price_cents
    };
    assert!(console(Condition::LikeNew, 5, 3) >= console(Condition::Good, 5, 3));
    assert!(console(Condition::Good, 5, 3) >= console(Condition::Good, 2, 3));
    assert!(console(Condition::Good, 2, 3) >= console(Condition::Fair, 2, 1));
    let space = |square_feet, location_tier| {
        recommend(PricingCategoryInput::Workspace(WorkspaceInput {
            square_feet,
            location_tier,
            cleanliness: 3,
            equipment_score: 2,
            amenity_count: 1,
            billing_unit: BillingUnit::ThirtyMinutes,
        }))
        .unwrap()
        .recommended_unit_price_cents
    };
    assert!(space(800, LocationTier::Urban) >= space(500, LocationTier::Urban));
    assert!(space(500, LocationTier::Urban) >= space(500, LocationTier::Residential));
}

#[test]
fn participants_move_a_paid_order_through_its_lifecycle() {
    let step = |state: &str, action, seller, buyer| decide_transition(state, action, seller, buyer);
    assert!(matches!(step("paid", OrderAction::Confirm, false, true), Err(ReserveError::Forbidden)));
    assert!(matches!(step("paid", OrderAction::Confirm, true, false), Ok((OrderState::Paid, OrderState::Confirmed))));
    assert!(matches!(step("confirmed", OrderAction::Activate, false, true), Ok((_, OrderState::Active))));
    assert!(matches!(step("active", OrderAction::Return, false, true), Ok((_, OrderState::Returned))));
    assert!(matches!(step("returned", OrderAction::Complete, true, false), Ok((_, OrderState::Completed))));
    assert!(matches!(step("pending_payment", OrderAction::MarkPaid, true, true), Err(ReserveError::Forbidden)));
    assert!(matches!(step("completed", OrderAction::Cancel, true, false), Err(ReserveError::InvalidTransition)));
    assert!(matches!(step("archived", OrderAction::Cancel, true, false), Err(ReserveError::InvalidTransition)));
}

fn pending_order(expires_at: Timestamp) -> StoredOrderPayment {
    StoredOrderPayment {
        status: "pending_payment".to_owned(),
        reservation_expires_at: expires_at,
        total_cents: 16_800,
        currency: "USD".to_owned(),
    }
}

fn paid_event() -> VerifiedPayment {
    VerifiedPayment {
        event_id: "evt_1".to_owned(),
        order_id: 7,
        amount_total_cents: 16_800,
        currency: "usd".to_owned(),
    }
}

/// Runs the payment steps against scripted store answers, returning each step.
fn run_payment(strict: bool, answers: Vec<PaymentStoreAnswer>) -> Vec<PaymentStep> {
    let payment = paid_event();
    let now = Timestamp::utc(0);
    let (mut progress, mut step) = begin_payment(strict);
    let mut steps = vec![step];
    for answer in answers {
        let next = payment_step(progress, answer, &payment, now);
        progress = next.0;
        step = next.1;
        steps.push(step);
    }
    assert_eq!(progress, PaymentProgress::Done);
    steps
}

#[test]
fn payment_event_is_stored_before_the_order_is_paid() {
    let later = Timestamp::utc(5 * MINUTE);
    assert_eq!(
        run_payment(true, vec![
            PaymentStoreAnswer::EventInserted,
            PaymentStoreAnswer::OrderFound(pending_order(later)),
            PaymentStoreAnswer::Updated(1),
        ]),
        vec![
            PaymentStep::InsertEvent,
            PaymentStep::LoadOrder,
            PaymentStep::MarkPaid,
            PaymentStep::Finish(PaymentEventOutcome::Applied),
        ]
    );
    assert_eq!(
        run_payment(true, vec![PaymentStoreAnswer::EventDuplicate]),
        vec![PaymentStep::InsertEvent, PaymentStep::Abort(PaymentEventOutcome::Duplicate)]
    );
    assert_eq!(
        run_payment(true, vec![PaymentStoreAnswer::EventInserted, PaymentStoreAnswer::OrderMissing]),
        vec![
            PaymentStep::InsertEvent,
            PaymentStep::LoadOrder,
            PaymentStep::Finish(PaymentEventOutcome::MissingOrder),
        ]
    );
}

#[test]
fn payment_updates_that_find_no_pending_order_are_undone_in_strict_stores() {
    let later = Timestamp::utc(5 * MINUTE);
    let answers = || vec![
        PaymentStoreAnswer::EventInserted,
        PaymentStoreAnswer::OrderFound(pending_order(later)),
        PaymentStoreAnswer::Updated(0),
    ];
    assert_eq!(
        run_payment(true, answers()).last(),
        Some(&PaymentStep::Abort(PaymentEventOutcome::Rejected(PaymentValidation::WrongState)))
    );
    assert_eq!(
        run_payment(false, answers()).last(),
        Some(&PaymentStep::Finish(PaymentEventOutcome::Applied))
    );
    let expired = run_payment(true, vec![
        PaymentStoreAnswer::EventInserted,
        PaymentStoreAnswer::OrderFound(pending_order(Timestamp::utc(0))),
        PaymentStoreAnswer::Updated(1),
    ]);
    assert_eq!(expired[2], PaymentStep::MarkExpired);
    assert_eq!(expired[3], PaymentStep::Finish(PaymentEventOutcome::Rejected(PaymentValidation::Expired)));
    let mut wrong_amount = pending_order(later);
    wrong_amount.total_cents = 1;
    assert_eq!(
        run_payment(true, vec![PaymentStoreAnswer::EventInserted, PaymentStoreAnswer::OrderFound(wrong_amount)]).last(),
        Some(&PaymentStep::Finish(PaymentEventOutcome::Rejected(PaymentValidation::AmountMismatch)))
    );
    let (progress, _) = begin_payment(true);
    assert_eq!(
        payment_step(progress, PaymentStoreAnswer::Updated(1), &paid_event(), later),
        (PaymentProgress::Done, PaymentStep::OutOfOrder)
    );
}

#[test]
fn store_counts_decide_holds_and_transitions() {
    assert!(matches!(expired_holds_restock(0), Ok(None)));
    assert!(matches!(expired_holds_restock(3), Ok(Some(3))));
    assert!(matches!(expired_holds_restock(u64::MAX), Err(ReserveError::Unavailable)));
    assert!(stock_taken(1).is_ok());
    assert!(matches!(stock_taken(0), Err(ReserveError::Unavailable)));
    assert!(state_written(1).is_ok());
    assert!(matches!(state_written(0), Err(ReserveError::InvalidTransition)));
}
