//! Billable units of a rental window: every started unit is charged.
use vstd::prelude::*;

use super::pricing::BillingUnit;
use crate::timestamp::{Timestamp, NANOS_PER_SECOND};

verus! {

#[derive(Debug, Clone, Copy, PartialEq, Eq, Structural)]
pub enum BillingError {
    InvalidWindow,
    Overflow,
}

/// The length of one billing unit in nanoseconds.
pub open spec fn unit_nanos(unit: BillingUnit) -> int {
    match unit {
        BillingUnit::ThirtyMinutes => 30 * 60 * NANOS_PER_SECOND,
        BillingUnit::Day => 24 * 60 * 60 * NANOS_PER_SECOND,
    }
}

/// The number of units that a window of `duration` nanoseconds starts:
/// the duration over the unit length, rounded up.
pub open spec fn started_units(duration: int, unit: BillingUnit) -> int {
    (duration + unit_nanos(unit) - 1) / unit_nanos(unit)
}

/// Counts the billing units between `start` and `end`, a started unit counting
/// in full. The window must be non-empty.
pub fn billable_units(start: Timestamp, end: Timestamp, billing_unit: BillingUnit) -> (result:
    Result<i64, BillingError>)
    ensures
        ({
            let duration = end.unix_nanos - start.unix_nanos;
            let units = started_units(duration, billing_unit);
            &&& (duration <= 0 || duration > i128::MAX) ==> result == Err::<i64, BillingError>(
                BillingError::InvalidWindow,
            )
            &&& 0 < duration <= i128::MAX && units > i64::MAX ==> result == Err::<i64, BillingError>(
                BillingError::Overflow,
            )
            &&& 0 < duration <= i128::MAX && units <= i64::MAX ==> result == Ok::<i64, BillingError>(
                units as i64,
            )
            &&& result matches Ok(n) ==> n >= 1 && (n - 1) * unit_nanos(billing_unit) < duration
                <= n * unit_nanos(billing_unit)
        }),
{
    let duration_nanos = match end.unix_nanos.checked_sub(start.unix_nanos) {
        Some(value) => if value > 0 {
            value
        } else {
            return Err(BillingError::InvalidWindow);
        },
        None => return Err(BillingError::InvalidWindow),
    };
    let divisor: i128 = match billing_unit {
        BillingUnit::ThirtyMinutes => 30 * 60 * NANOS_PER_SECOND,
        BillingUnit::Day => 24 * 60 * 60 * NANOS_PER_SECOND,
    };
    let units = match duration_nanos.checked_add(divisor - 1) {
        Some(value) => value / divisor,
        None => {
            proof {
                let d = duration_nanos as int;
                let k = divisor as int;
                assert((d + k - 1) / k > i64::MAX) by (nonlinear_arith)
                    requires
                        d + k - 1 > i128::MAX,
                        0 < k <= 86_400_000_000_000,
                ;
            }
            return Err(BillingError::Overflow);
        },
    };
    proof {
        let d = duration_nanos as int;
        let k = divisor as int;
        let u = units as int;
        assert(u == (d + k - 1) / k);
        assert(u >= 1 && (u - 1) * k < d && d <= u * k) by (nonlinear_arith)
            requires
                u == (d + k - 1) / k,
                d > 0,
                k > 0,
        ;
    }
    if units > 9_223_372_036_854_775_807 {
        return Err(BillingError::Overflow);
    }
    Ok(units as i64)
}

/// A half hour is 1 800 seconds and a day is 48 half hours.
pub proof fn lemma_billing_unit_lengths()
    ensures
        unit_nanos(BillingUnit::ThirtyMinutes) == 1_800 * NANOS_PER_SECOND,
        unit_nanos(BillingUnit::Day) == 48 * unit_nanos(BillingUnit::ThirtyMinutes),
{
}

} // verus!
