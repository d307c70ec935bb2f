use vstd::prelude::*;

verus! {

/// One basis point is 1 / BPS_SCALER.
pub const BPS_SCALER: u64 = 10_000;

/// Percentages are expressed over PERCENT_SCALER.
pub const PERCENT_SCALER: u128 = 100;

/// Highest protocol fee a market or reserve may charge (10%).
pub const MAX_PROTOCOL_FEE_BPS: u16 = 1_000;

pub const SLOTS_PER_SECOND: u64 = 2;
pub const SLOTS_PER_MINUTE: u64 = 120;
pub const SLOTS_PER_HOUR: u64 = 7_200;
pub const SLOTS_PER_DAY: u64 = 172_800;
pub const SLOTS_PER_YEAR: u64 = 63_072_000;

/// Fixed-point scale of every `_sf` quantity (1e12).
pub const RATE_SCALE: u128 = 1_000_000_000_000;

pub const MAX_LIQUIDATION_THRESHOLD_PCT: u8 = 100;
pub const MAX_UTILIZATION_BPS: u16 = 10_000;

/// An oracle price older than this many seconds is stale.
pub const MAX_AGE_SECONDS: i64 = 60;

/// Number of collateral slots in an obligation.
pub const MAX_DEPOSITS_COUNT_IN_RESERVE: usize = 8;

/// Number of borrow slots in an obligation.
pub const MAX_BORROW_COUNT_IN_RESERVE: usize = 8;

/// Max fraction of an unhealthy obligation's debt repayable in one liquidation (50%).
pub const MAX_LIQUIDATION_CLOSE_FACTOR_PCT: u128 = 50;

/// The slot counts are consistent with one another.
pub proof fn lemma_slot_constants()
    ensures
        SLOTS_PER_MINUTE == 60 * SLOTS_PER_SECOND,
        SLOTS_PER_HOUR == 60 * SLOTS_PER_MINUTE,
        SLOTS_PER_DAY == 24 * SLOTS_PER_HOUR,
        SLOTS_PER_YEAR == 365 * SLOTS_PER_DAY,
{
}

} // verus!
