use core_api::adapters::mongo::slots::slot_boundaries;
use core_api::timestamp::Timestamp;
use time::{Date, Month};

fn utc(year: i32, month: Month, day: u8, hour: u8, minute: u8) -> Timestamp {
    let instant = Date::from_calendar_date(year, month, day)
        .unwrap()
        .with_hms(hour, minute, 0)
        .unwrap()
        .assume_utc();
    Timestamp::utc(instant.unix_timestamp_nanos())
}

#[test]
fn half_hour_window_creates_one_slot() {
    let slots = slot_boundaries(
        utc(2026, Month::July, 16, 10, 0),
        utc(2026, Month::July, 16, 10, 30),
    )
    .unwrap();
    assert_eq!(slots, vec![utc(2026, Month::July, 16, 10, 0)]);
}

#[test]
fn multi_hour_window_contains_every_half_hour_start() {
    let slots = slot_boundaries(
        utc(2026, Month::July, 16, 10, 0),
        utc(2026, Month::July, 16, 12, 0),
    )
    .unwrap();
    assert_eq!(
        slots,
        vec![
            utc(2026, Month::July, 16, 10, 0),
            utc(2026, Month::July, 16, 10, 30),
            utc(2026, Month::July, 16, 11, 0),
            utc(2026, Month::July, 16, 11, 30),
        ]
    );
}

#[test]
fn unaligned_or_backwards_windows_are_rejected() {
    assert!(
        slot_boundaries(
            utc(2026, Month::July, 16, 10, 10),
            utc(2026, Month::July, 16, 10, 40),
        )
        .is_err()
    );
    assert!(
        slot_boundaries(
            utc(2026, Month::July, 16, 11, 0),
            utc(2026, Month::July, 16, 10, 30),
        )
        .is_err()
    );
}

#[test]
fn reservations_are_bounded_to_sixty_days() {
    assert!(
        slot_boundaries(
            utc(2026, Month::January, 1, 0, 0),
            utc(2026, Month::March, 2, 0, 30),
        )
        .is_err()
    );
}
