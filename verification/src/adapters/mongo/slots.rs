//! Booking slots: a timed reservation occupies every UTC half hour it covers,
//! one slot per half hour, so that overlapping reservations collide.
use vstd::prelude::*;

use crate::timestamp::{Timestamp, NANOS_PER_SECOND};

verus! {

pub const SLOT_MINUTES: i64 = 30;

/// A reservation covers at most sixty days of half-hour slots.
pub const MAX_SLOTS: usize = 2_880;

/// The length of one slot in nanoseconds.
pub open spec fn slot_nanos() -> int {
    30 * 60 * NANOS_PER_SECOND
}

#[derive(Debug, Clone, Copy, PartialEq, Eq, Structural)]
pub enum SlotError {
    Unaligned,
    InvalidWindow,
    TooLarge,
}

/// The start of the `i`-th slot after `start`, in UTC.
pub open spec fn slot_at(start: Timestamp, i: int) -> Timestamp {
    Timestamp { unix_nanos: (start.unix_nanos + i * slot_nanos()) as i128, utc_offset_seconds: 0 }
}

/// Whether `t` is given in UTC and falls on a whole half hour.
pub open spec fn on_utc_half_hour(t: Timestamp) -> bool {
    t.utc_offset_seconds == 0 && t.unix_nanos as int % slot_nanos() == 0
}

/// The slots of a window, or why it cannot be reserved: misaligned boundaries
/// first, then an empty or backwards window, then one of more than 2 880 slots.
pub open spec fn slot_outcome(start: Timestamp, end: Timestamp, result: Result<Vec<Timestamp>, SlotError>) -> bool {
    let count = (end.unix_nanos - start.unix_nanos) / slot_nanos();
    if !on_utc_half_hour(start) || !on_utc_half_hour(end) {
        result == Err::<Vec<Timestamp>, SlotError>(SlotError::Unaligned)
    } else if end.unix_nanos <= start.unix_nanos {
        result == Err::<Vec<Timestamp>, SlotError>(SlotError::InvalidWindow)
    } else if count > MAX_SLOTS {
        result == Err::<Vec<Timestamp>, SlotError>(SlotError::TooLarge)
    } else {
        result matches Ok(slots) && slots@.len() == count && forall|i: int|
            0 <= i < count ==> #[trigger] slots@[i] == slot_at(start, i)
    }
}

/// Lists the half-hour slots from `start` (included) to `end` (excluded).
pub fn slot_boundaries(start: Timestamp, end: Timestamp) -> (result: Result<Vec<Timestamp>, SlotError>)
    ensures
        slot_outcome(start, end, result),
        result matches Ok(slots) ==> slots@.len() >= 1 && slots@[0] == start
            && slots@.last().unix_nanos + slot_nanos() == end.unix_nanos,
{
    let slot: i128 = 30 * 60 * NANOS_PER_SECOND;
    if start.utc_offset_seconds != 0 || end.utc_offset_seconds != 0 {
        return Err(SlotError::Unaligned);
    }
    if start.unix_nanos % slot != 0 || end.unix_nanos % slot != 0 {
        return Err(SlotError::Unaligned);
    }
    if end.unix_nanos <= start.unix_nanos {
        return Err(SlotError::InvalidWindow);
    }
    let duration = match end.unix_nanos.checked_sub(start.unix_nanos) {
        Some(value) => value,
        None => {
            proof {
                let d = end.unix_nanos - start.unix_nanos;
                assert(d / slot_nanos() > MAX_SLOTS) by (nonlinear_arith)
                    requires
                        d > i128::MAX,
                        slot_nanos() == 1_800_000_000_000,
                ;
            }
            return Err(SlotError::TooLarge);
        },
    };
    let count = duration / slot;
    if count <= 0 || count > MAX_SLOTS as i128 {
        return Err(SlotError::TooLarge);
    }
    let mut slots: Vec<Timestamp> = Vec::new();
    let mut index: i128 = 0;
    while index < count
        invariant
            0 <= index <= count <= MAX_SLOTS,
            slot == slot_nanos(),
            count == (end.unix_nanos - start.unix_nanos) / slot_nanos(),
            start.unix_nanos < end.unix_nanos,
            start.unix_nanos as int % slot_nanos() == 0,
            end.unix_nanos as int % slot_nanos() == 0,
            slots@.len() == index,
            forall|i: int| 0 <= i < index ==> #[trigger] slots@[i] == slot_at(start, i),
        decreases count - index,
    {
        proof {
            assert(0 <= index * slot <= 2_880 * 1_800_000_000_000) by (nonlinear_arith)
                requires
                    0 <= index <= 2_880,
                    slot == 1_800_000_000_000,
            ;
            let d = end.unix_nanos - start.unix_nanos;
            assert(start.unix_nanos + index * slot <= end.unix_nanos) by (nonlinear_arith)
                requires
                    0 <= index < count,
                    count == d / (slot as int),
                    d == end.unix_nanos - start.unix_nanos,
                    d > 0,
                    slot > 0,
            ;
        }
        slots.push(Timestamp::utc(start.unix_nanos + index * slot));
        index = index + 1;
    }
    proof {
        let d = end.unix_nanos - start.unix_nanos;
        assert(d % slot_nanos() == 0) by (nonlinear_arith)
            requires
                start.unix_nanos as int % slot_nanos() == 0,
                end.unix_nanos as int % slot_nanos() == 0,
                d == end.unix_nanos - start.unix_nanos,
                slot_nanos() > 0,
        ;
        assert(start.unix_nanos + (count - 1) * slot_nanos() + slot_nanos() == end.unix_nanos)
            by (nonlinear_arith)
            requires
                count == d / slot_nanos(),
                d % slot_nanos() == 0,
                d == end.unix_nanos - start.unix_nanos,
                slot_nanos() > 0,
        ;
        assert(slots@[0].unix_nanos == start.unix_nanos);
    }
    Ok(slots)
}

} // verus!
