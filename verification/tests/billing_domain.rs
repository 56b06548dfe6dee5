use core_api::domain::{
    billing::{BillingError, billable_units},
    pricing::BillingUnit,
};
use core_api::timestamp::Timestamp;

const MINUTE: i128 = 60_000_000_000;
const SECOND: i128 = 1_000_000_000;
const DAY: i128 = 24 * 60 * MINUTE;

#[test]
fn thirty_minute_billing_rounds_up_and_has_one_unit_minimum() {
    let start = Timestamp::utc(0);
    for (minutes, expected) in [(1, 1), (20, 1), (30, 1), (31, 2), (50, 2), (60, 2), (61, 3)] {
        let end = Timestamp::utc(minutes * MINUTE);
        assert_eq!(
            billable_units(start, end, BillingUnit::ThirtyMinutes).unwrap(),
            expected,
            "{minutes} minutes"
        );
    }
}

#[test]
fn daily_billing_rounds_up() {
    let start = Timestamp::utc(0);
    assert_eq!(
        billable_units(start, Timestamp::utc(SECOND), BillingUnit::Day).unwrap(),
        1
    );
    assert_eq!(
        billable_units(start, Timestamp::utc(DAY), BillingUnit::Day).unwrap(),
        1
    );
    assert_eq!(
        billable_units(start, Timestamp::utc(DAY + SECOND), BillingUnit::Day).unwrap(),
        2
    );
}

#[test]
fn empty_or_backwards_windows_are_rejected() {
    let start = Timestamp::utc(0);
    assert_eq!(
        billable_units(start, start, BillingUnit::ThirtyMinutes),
        Err(BillingError::InvalidWindow)
    );
    assert_eq!(
        billable_units(start, Timestamp::utc(-MINUTE), BillingUnit::Day),
        Err(BillingError::InvalidWindow)
    );
}
