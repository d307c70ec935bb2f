use vstd::prelude::*;

use crate::constants::RATE_SCALE;
use crate::error::LendingError;
use crate::last_update::{saturating_sub_i64, saturating_sub_i64_exec};
use crate::pubkey::Pubkey;

verus! {

/// Max allowed conf/price ratio: 1 / CONFIDENCE_FACTOR = 2%.
pub const CONFIDENCE_FACTOR: u64 = 50;

/// How many guardian signatures checked a Pyth price update.
#[derive(Debug, Clone, Copy)]
pub enum VerificationLevel {
    Partial { num_signatures: u8 },
    Full,
}

impl VerificationLevel {
    /// Full verification is at least any level; a partial one is at least
    /// another partial one with no more signatures.
    pub open spec fn at_least(self, other: VerificationLevel) -> bool {
        match self {
            VerificationLevel::Full => true,
            VerificationLevel::Partial { num_signatures } => match other {
                VerificationLevel::Full => false,
                VerificationLevel::Partial { num_signatures: needed } => num_signatures >= needed,
            },
        }
    }

    pub fn gte(&self, other: VerificationLevel) -> (b: bool)
        ensures
            b == self.at_least(other),
    {
        match self {
            VerificationLevel::Full => true,
            VerificationLevel::Partial { num_signatures } => match other {
                VerificationLevel::Full => false,
                VerificationLevel::Partial { num_signatures: needed } => *num_signatures >= needed,
            },
        }
    }
}

/// A Pyth price: `price × 10^exponent` USD, ± `conf × 10^exponent`.
#[derive(Debug, Clone, Copy)]
pub struct PriceFeedMessage {
    pub feed_id: [u8; 32],
    pub price: i64,
    pub conf: u64,
    pub exponent: i32,
    pub publish_time: i64,
    pub prev_publish_time: i64,
    pub ema_price: i64,
    pub ema_conf: u64,
}

/// The contents of a Pyth price-update account.
#[derive(Debug, Clone, Copy)]
pub struct PriceUpdate {
    pub write_authority: Pubkey,
    pub verification_level: VerificationLevel,
    pub price_message: PriceFeedMessage,
    pub posted_slot: u64,
}

pub open spec fn pow10(e: nat) -> int
    decreases e,
{
    if e == 0 {
        1
    } else {
        10 * pow10((e - 1) as nat)
    }
}

/// `|e|`.
pub open spec fn abs_i32(e: i32) -> nat {
    if e < 0 {
        (-e) as nat
    } else {
        e as nat
    }
}

/// Whether a price passes the verification, staleness, sign and confidence checks.
pub open spec fn price_checks_pass(update: PriceUpdate, max_age_secs: i64, current_timestamp: i64) -> bool {
    let m = update.price_message;
    &&& update.verification_level.at_least(VerificationLevel::Full)
    &&& saturating_sub_i64(current_timestamp, m.publish_time) <= max_age_secs
    &&& m.price > 0
    &&& (conf_scaled_fits(m.conf) ==> m.conf * CONFIDENCE_FACTOR <= m.price)
    &&& (!conf_scaled_fits(m.conf) ==> u64::MAX <= m.price)
}

/// Whether `conf × CONFIDENCE_FACTOR` fits in a `u64`.
pub open spec fn conf_scaled_fits(conf: u64) -> bool {
    conf * CONFIDENCE_FACTOR <= u64::MAX
}

/// What `get_pyth_price` returns: an account that is not a price update is
/// refused, then the checks run in order.
pub open spec fn pyth_price_result(update: Option<PriceUpdate>, max_age_secs: i64, current_timestamp: i64) -> Result<(u128, i64), LendingError> {
    match update {
        None => Err(LendingError::PriceNotValid),
        Some(u) => price_from_update(u, max_age_secs, current_timestamp),
    }
}

/// Where a price passes its checks, its exponent is within `±38` (so that
/// `10^|exponent|` fits in a `u128`).
pub open spec fn exponent_in_range(update: Option<PriceUpdate>, max_age_secs: i64, current_timestamp: i64) -> bool {
    match update {
        None => true,
        Some(u) => price_checks_pass(u, max_age_secs, current_timestamp) ==> abs_i32(
            u.price_message.exponent,
        ) <= 38,
    }
}

/// The checks in order, then the price in USD scaled by `RATE_SCALE` with its
/// publish time.
pub open spec fn price_from_update(update: PriceUpdate, max_age_secs: i64, current_timestamp: i64) -> Result<(u128, i64), LendingError> {
    let m = update.price_message;
    let k = abs_i32(m.exponent);
    if !update.verification_level.at_least(VerificationLevel::Full) {
        Err(LendingError::PriceNotValid)
    } else if saturating_sub_i64(current_timestamp, m.publish_time) > max_age_secs {
        Err(LendingError::PriceStale)
    } else if m.price <= 0 {
        Err(LendingError::PriceNotValid)
    } else if (conf_scaled_fits(m.conf) && m.conf * CONFIDENCE_FACTOR > m.price) || (
    !conf_scaled_fits(m.conf) && u64::MAX > m.price) {
        Err(LendingError::PriceConfidenceTooWide)
    } else if m.price * RATE_SCALE > u128::MAX {
        Err(LendingError::MathOverflow)
    } else if m.exponent < 0 {
        Ok(((m.price * RATE_SCALE / pow10(k)) as u128, m.publish_time))
    } else if m.price * RATE_SCALE * pow10(k) > u128::MAX {
        Err(LendingError::MathOverflow)
    } else {
        Ok(((m.price * RATE_SCALE * pow10(k)) as u128, m.publish_time))
    }
}

/// `10^e` as a `u128` (`e <= 38`).
fn pow10_u128(e: u32) -> (p: u128)
    requires
        e <= 38,
    ensures
        p == pow10(e as nat),
        p >= 1,
{
    let mut p: u128 = 1;
    let mut i: u32 = 0;
    while i < e
        invariant
            i <= e,
            e <= 38,
            p == pow10(i as nat),
            1 <= p <= pow10(i as nat),
        decreases e - i,
    {
        proof {
            lemma_pow10_bound(i as nat);
        }
        p = p * 10;
        i = i + 1;
    }
    p
}

/// `10^e` stays within `u128` up to `e = 38`, and is positive.
pub proof fn lemma_pow10_bound(e: nat)
    ensures
        1 <= pow10(e),
        e <= 37 ==> pow10(e) * 10 <= u128::MAX,
    decreases e,
{
    lemma_pow10_pos(e);
    if e > 0 {
        if e <= 37 {
            lemma_pow10_mono((e - 1) as nat, 36);
            reveal_with_fuel(pow10, 38);
            assert(pow10(37) == 10000000000000000000000000000000000000int);
        }
    }
}

pub proof fn lemma_pow10_mono(a: nat, b: nat)
    requires
        a <= b,
    ensures
        pow10(a) <= pow10(b),
    decreases b - a,
{
    if a < b {
        lemma_pow10_mono(a, (b - 1) as nat);
        lemma_pow10_pos((b - 1) as nat);
    }
}

pub proof fn lemma_pow10_pos(e: nat)
    ensures
        1 <= pow10(e),
    decreases e,
{
    if e > 0 {
        lemma_pow10_pos((e - 1) as nat);
    }
}

/// Whether the price conversion can run on this update: a price that passes
/// its checks must have an exponent within `±38`.
pub fn price_exponent_in_range(price_update: &Option<PriceUpdate>, max_age_secs: i64, current_timestamp: i64) -> (b: bool)
    ensures
        b == exponent_in_range(*price_update, max_age_secs, current_timestamp),
{
    match price_update {
        None => true,
        Some(u) => {
            let m = u.price_message;
            let conf_ok = match m.conf.checked_mul(CONFIDENCE_FACTOR) {
                Some(v) => m.price > 0 && v <= m.price as u64,
                None => m.price > 0 && u64::MAX <= m.price as u64,
            };
            let passes = u.verification_level.gte(VerificationLevel::Full) && saturating_sub_i64_exec(
                current_timestamp,
                m.publish_time,
            ) <= max_age_secs && m.price > 0 && conf_ok;
            !passes || (m.exponent >= -38 && m.exponent <= 38)
        },
    }
}

/// Checks a Pyth price update (full verification, at most `max_age_secs` old,
/// positive, confidence within 2% of the price) and returns the USD price
/// scaled by `RATE_SCALE` ($1.00 = `RATE_SCALE`) with its publish time.
/// `None` stands for an account that does not hold a price update.
pub fn get_pyth_price(price_update: &Option<PriceUpdate>, max_age_secs: i64, current_timestamp: i64) -> (r:
    Result<(u128, i64), LendingError>)
    requires
        exponent_in_range(*price_update, max_age_secs, current_timestamp),
    ensures
        r == pyth_price_result(*price_update, max_age_secs, current_timestamp),
{
    let price_update = match price_update {
        Some(u) => u,
        None => {
            return Err(LendingError::PriceNotValid);
        },
    };
    if !price_update.verification_level.gte(VerificationLevel::Full) {
        return Err(LendingError::PriceNotValid);
    }
    let m = price_update.price_message;
    if !(saturating_sub_i64_exec(current_timestamp, m.publish_time) <= max_age_secs) {
        return Err(LendingError::PriceStale);
    }
    if !(m.price > 0) {
        return Err(LendingError::PriceNotValid);
    }
    let price_u64: u64 = m.price as u64;
    let conf_scaled: u64 = match m.conf.checked_mul(CONFIDENCE_FACTOR) {
        Some(v) => v,
        None => u64::MAX,
    };
    if !(conf_scaled <= price_u64) {
        return Err(LendingError::PriceConfidenceTooWide);
    }
    let exp_abs: u32 = if m.exponent < 0 {
        (0i64 - m.exponent as i64) as u32
    } else {
        m.exponent as u32
    };
    let scaled: u128 = match (price_u64 as u128).checked_mul(RATE_SCALE) {
        Some(v) => v,
        None => {
            return Err(LendingError::MathOverflow);
        },
    };
    let factor: u128 = pow10_u128(exp_abs);
    let price_sf: u128 = if m.exponent < 0 {
        scaled / factor
    } else {
        match scaled.checked_mul(factor) {
            Some(v) => v,
            None => {
                return Err(LendingError::MathOverflow);
            },
        }
    };
    Ok((price_sf, m.publish_time))
}

} // verus!
