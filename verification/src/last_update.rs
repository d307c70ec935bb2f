use vstd::prelude::*;

use crate::constants::MAX_AGE_SECONDS;

verus! {

/// Slot and unix timestamp of the last refresh.
#[derive(Debug, Clone, Copy)]
pub struct LastUpdate {
    pub slot: u64,
    pub timestamp: i64,
}

/// `a - b` clamped to the range of `i64`.
pub open spec fn saturating_sub_i64(a: i64, b: i64) -> int {
    if a - b > i64::MAX {
        i64::MAX as int
    } else if a - b < i64::MIN {
        i64::MIN as int
    } else {
        a - b
    }
}

/// `a - b` clamped to the range of `i64`.
pub fn saturating_sub_i64_exec(a: i64, b: i64) -> (d: i64)
    ensures
        d == saturating_sub_i64(a, b),
{
    match a.checked_sub(b) {
        Some(d) => d,
        None => {
            if b < 0 {
                i64::MAX
            } else {
                i64::MIN
            }
        },
    }
}

impl LastUpdate {
    pub fn default() -> (u: LastUpdate)
        ensures
            u.slot == 0,
            u.timestamp == 0,
    {
        LastUpdate { slot: 0, timestamp: 0 }
    }

    pub fn init(&mut self)
        ensures
            final(self).slot == 0,
            final(self).timestamp == 0,
    {
        *self = LastUpdate::default();
    }

    pub fn update(&mut self, slot: u64, timestamp: i64)
        ensures
            final(self).slot == slot,
            final(self).timestamp == timestamp,
    {
        self.slot = slot;
        self.timestamp = timestamp;
    }

    /// The price is stale once more than `MAX_AGE_SECONDS` have passed
    /// since `timestamp` (the difference saturates at the `i64` bounds).
    pub fn is_price_stale(&self, curr_time: i64) -> (b: bool)
        ensures
            b == (saturating_sub_i64(curr_time, self.timestamp) > MAX_AGE_SECONDS),
    {
        saturating_sub_i64_exec(curr_time, self.timestamp) > MAX_AGE_SECONDS
    }

    /// Stale unless refreshed in exactly this slot.
    pub fn is_slot_stale(&self, curr_slot: u64) -> (b: bool)
        ensures
            b == (curr_slot != self.slot),
    {
        curr_slot != self.slot
    }
}

} // verus!
