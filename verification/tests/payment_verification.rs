use core_api::ports::order_repository::{
    PaymentValidation, StoredOrderPayment, VerifiedPayment, validate_payment,
};
use core_api::timestamp::Timestamp;

const MINUTE: i128 = 60_000_000_000;

fn payment() -> VerifiedPayment {
    VerifiedPayment {
        event_id: "evt_test".to_owned(),
        order_id: 0,
        amount_total_cents: 16_800,
        currency: "usd".to_owned(),
    }
}

fn stored(now: Timestamp) -> StoredOrderPayment {
    StoredOrderPayment {
        status: "pending_payment".to_owned(),
        reservation_expires_at: Timestamp::utc(now.unix_nanos + 5 * MINUTE),
        total_cents: 16_800,
        currency: "USD".to_owned(),
    }
}

#[test]
fn exact_unexpired_payment_is_accepted() {
    let now = Timestamp::utc(0);
    assert_eq!(
        validate_payment(&payment(), &stored(now), now),
        PaymentValidation::Accepted
    );
}

#[test]
fn amount_currency_status_and_expiration_must_match() {
    let now = Timestamp::utc(0);

    let mut changed = payment();
    changed.amount_total_cents -= 1;
    assert_eq!(
        validate_payment(&changed, &stored(now), now),
        PaymentValidation::AmountMismatch
    );

    let mut changed = payment();
    changed.currency = "eur".to_owned();
    assert_eq!(
        validate_payment(&changed, &stored(now), now),
        PaymentValidation::CurrencyMismatch
    );

    let mut changed_order = stored(now);
    changed_order.status = "paid".to_owned();
    assert_eq!(
        validate_payment(&payment(), &changed_order, now),
        PaymentValidation::WrongState
    );

    let mut changed_order = stored(now);
    changed_order.reservation_expires_at = now;
    assert_eq!(
        validate_payment(&payment(), &changed_order, now),
        PaymentValidation::Expired
    );
}
