use vstd::prelude::*;

use crate::constants::{BPS_SCALER, PERCENT_SCALER, RATE_SCALE, SLOTS_PER_YEAR};
use crate::error::LendingError;
use crate::pubkey::Pubkey;

verus! {

/// The liquidity side of a reserve: tokens held, tokens lent out, the
/// cumulative borrow-rate index and the fees set aside for the protocol.
#[derive(Debug, Clone, Copy)]
pub struct ReserveLiquidity {
    /// Outstanding borrowed liquidity, in tokens.
    pub borrowed_amount_sf: u128,
    /// Cumulative borrow-rate index, scaled by `RATE_SCALE` (starts at 1.0).
    pub cumulative_borrow_rate_sf: u128,
    pub accumulated_protocol_fees: u128,
    pub mint: Pubkey,
    pub supply_vault: Pubkey,
    pub fee_vault: Pubkey,
    /// Liquidity that can be borrowed or withdrawn.
    pub available_amount: u64,
    /// Oracle price of one token in USD, scaled by `RATE_SCALE` (0 until first refresh).
    pub market_price_sf: u128,
    /// Publish time of `market_price_sf`.
    pub price_last_updated_ts: i64,
    pub padding: [u8; 8],
}

pub struct NewReserveLiquidityParams {
    pub mint: Pubkey,
    pub supply_vault: Pubkey,
    pub fee_vault: Pubkey,
}

/// The period rate, scaled by `RATE_SCALE`, for `slots` slots at an annual
/// rate of `borrow_rate_bps` basis points.
pub open spec fn period_rate(borrow_rate_bps: int, slots: int) -> int {
    borrow_rate_bps * slots * (RATE_SCALE as int) / (SLOTS_PER_YEAR as int) / (BPS_SCALER as int)
}

impl ReserveLiquidity {
    /// available + borrowed - fees, as a mathematical integer.
    pub open spec fn supply_value(self) -> int {
        self.available_amount + self.borrowed_amount_sf - self.accumulated_protocol_fees
    }

    /// Whether `total_supply` succeeds: the sum fits and covers the fees.
    pub open spec fn supply_ok(self) -> bool {
        &&& self.available_amount + self.borrowed_amount_sf <= u128::MAX
        &&& self.available_amount + self.borrowed_amount_sf >= self.accumulated_protocol_fees
    }

    /// `total_supply`, or 0 where it fails.
    pub open spec fn supply_or_zero(self) -> int {
        if self.supply_ok() {
            self.supply_value()
        } else {
            0
        }
    }

    /// Whether `utilization_rate` runs without overflowing.
    pub open spec fn utilization_computable(self) -> bool {
        self.supply_or_zero() == 0 || self.borrowed_amount_sf * PERCENT_SCALER <= u128::MAX
    }

    /// Borrowed share of the supply, in percent (0 for an empty pool).
    pub open spec fn utilization_value(self) -> int {
        if self.supply_or_zero() == 0 {
            0
        } else {
            self.borrowed_amount_sf * PERCENT_SCALER / self.supply_or_zero()
        }
    }

    /// Whether interest accrual at this rate, over these slots, stays within `u128`.
    pub open spec fn accrual_fits(self, borrow_rate: u64, slots: u64, protocol_fee: u64) -> bool {
        let rate = period_rate(borrow_rate as int, slots as int);
        let debt = rate * self.borrowed_amount_sf / (RATE_SCALE as int);
        let fee = debt * protocol_fee / (BPS_SCALER as int);
        let rate_acc = rate * self.cumulative_borrow_rate_sf / (RATE_SCALE as int);
        &&& borrow_rate * slots * RATE_SCALE <= u128::MAX
        &&& rate * self.borrowed_amount_sf <= u128::MAX
        &&& self.borrowed_amount_sf + debt <= u128::MAX
        &&& debt * protocol_fee <= u128::MAX
        &&& self.accumulated_protocol_fees + fee <= u128::MAX
        &&& rate * self.cumulative_borrow_rate_sf <= u128::MAX
        &&& self.cumulative_borrow_rate_sf + rate_acc <= u128::MAX
    }

    /// The liquidity after interest accrues: debt and the rate index each grow by
    /// the period rate, and the protocol takes `protocol_fee` bps of the new debt.
    pub open spec fn accrued(self, borrow_rate: u64, slots: u64, protocol_fee: u64) -> ReserveLiquidity {
        let rate = period_rate(borrow_rate as int, slots as int);
        let debt = rate * self.borrowed_amount_sf / (RATE_SCALE as int);
        let fee = debt * protocol_fee / (BPS_SCALER as int);
        let rate_acc = rate * self.cumulative_borrow_rate_sf / (RATE_SCALE as int);
        ReserveLiquidity {
            borrowed_amount_sf: (self.borrowed_amount_sf + debt) as u128,
            accumulated_protocol_fees: (self.accumulated_protocol_fees + fee) as u128,
            cumulative_borrow_rate_sf: (self.cumulative_borrow_rate_sf + rate_acc) as u128,
            ..self
        }
    }

    /// Where accrual overflows part way, the steps done before the overflow
    /// stay: the debt grows first, then the fees, then the rate index.
    pub open spec fn accrual_refused(self, borrow_rate: u64, slots: u64, protocol_fee: u64) -> ReserveLiquidity {
        let rate = period_rate(borrow_rate as int, slots as int);
        let debt = rate * self.borrowed_amount_sf / (RATE_SCALE as int);
        let fee = debt * protocol_fee / (BPS_SCALER as int);
        if !(borrow_rate * slots * RATE_SCALE <= u128::MAX && rate * self.borrowed_amount_sf
            <= u128::MAX && self.borrowed_amount_sf + debt <= u128::MAX) {
            self
        } else if !(debt * protocol_fee <= u128::MAX && self.accumulated_protocol_fees + fee
            <= u128::MAX) {
            ReserveLiquidity { borrowed_amount_sf: (self.borrowed_amount_sf + debt) as u128, ..self }
        } else {
            ReserveLiquidity {
                borrowed_amount_sf: (self.borrowed_amount_sf + debt) as u128,
                accumulated_protocol_fees: (self.accumulated_protocol_fees + fee) as u128,
                ..self
            }
        }
    }

    /// `amount` more tokens available.
    pub open spec fn deposited(self, amount: u64) -> ReserveLiquidity {
        ReserveLiquidity { available_amount: (self.available_amount + amount) as u64, ..self }
    }

    /// `amount` fewer tokens available.
    pub open spec fn withdrawn(self, amount: u64) -> ReserveLiquidity {
        ReserveLiquidity { available_amount: (self.available_amount - amount) as u64, ..self }
    }

    /// `amount` tokens moved from available to borrowed.
    pub open spec fn lent(self, amount: u64) -> ReserveLiquidity {
        ReserveLiquidity {
            available_amount: (self.available_amount - amount) as u64,
            borrowed_amount_sf: (self.borrowed_amount_sf + amount) as u128,
            ..self
        }
    }

    /// `amount` tokens moved from borrowed back to available.
    pub open spec fn repaid(self, amount: u64) -> ReserveLiquidity {
        ReserveLiquidity {
            available_amount: (self.available_amount + amount) as u64,
            borrowed_amount_sf: (self.borrowed_amount_sf - amount) as u128,
            ..self
        }
    }

    /// An empty pool: everything zero but the rate index, which is 1.0.
    pub open spec fn is_blank(self) -> bool {
        &&& self.borrowed_amount_sf == 0
        &&& self.cumulative_borrow_rate_sf == RATE_SCALE
        &&& self.accumulated_protocol_fees == 0
        &&& self.mint.is_zero()
        &&& self.supply_vault.is_zero()
        &&& self.fee_vault.is_zero()
        &&& self.available_amount == 0
        &&& self.market_price_sf == 0
        &&& self.price_last_updated_ts == 0
        &&& forall|i: int| 0 <= i < 8 ==> #[trigger] self.padding@[i] == 0
    }

    pub fn default() -> (l: ReserveLiquidity)
        ensures
            l.is_blank(),
    {
        ReserveLiquidity {
            borrowed_amount_sf: 0,
            cumulative_borrow_rate_sf: RATE_SCALE,
            accumulated_protocol_fees: 0,
            mint: Pubkey::zero(),
            supply_vault: Pubkey::zero(),
            fee_vault: Pubkey::zero(),
            available_amount: 0,
            market_price_sf: 0,
            price_last_updated_ts: 0,
            padding: [0u8; 8],
        }
    }

    /// An empty pool with the rate index at 1.0.
    pub fn init(&mut self, params: NewReserveLiquidityParams)
        ensures
            final(self).borrowed_amount_sf == 0,
            final(self).cumulative_borrow_rate_sf == RATE_SCALE,
            final(self).accumulated_protocol_fees == 0,
            final(self).mint == params.mint,
            final(self).supply_vault == params.supply_vault,
            final(self).fee_vault == params.fee_vault,
            final(self).available_amount == 0,
            final(self).market_price_sf == old(self).market_price_sf,
            final(self).price_last_updated_ts == old(self).price_last_updated_ts,
            forall|i: int| 0 <= i < 8 ==> #[trigger] final(self).padding@[i] == 0,
    {
        self.borrowed_amount_sf = 0;
        self.cumulative_borrow_rate_sf = RATE_SCALE;
        self.accumulated_protocol_fees = 0;
        self.mint = params.mint;
        self.supply_vault = params.supply_vault;
        self.fee_vault = params.fee_vault;
        self.available_amount = 0;
        self.padding = [0u8; 8];
    }

    /// Adds deposited tokens to the available liquidity.
    pub fn deposit(&mut self, amount: u64) -> (r: Result<(), LendingError>)
        ensures
            old(self).available_amount + amount <= u64::MAX ==> r is Ok && *final(self) == old(
                self,
            ).deposited(amount),
            old(self).available_amount + amount > u64::MAX ==> r == Err::<(), LendingError>(
                LendingError::MathOverflow,
            ) && *final(self) == *old(self),
    {
        match self.available_amount.checked_add(amount) {
            Some(v) => {
                self.available_amount = v;
                Ok(())
            },
            None => Err(LendingError::MathOverflow),
        }
    }

    /// Moves `amount` from available to borrowed liquidity.
    pub fn borrow(&mut self, amount: u64) -> (r: Result<(), LendingError>)
        ensures
            old(self).available_amount < amount ==> r == Err::<(), LendingError>(
                LendingError::InsufficientLiquidity,
            ),
            old(self).available_amount >= amount && old(self).borrowed_amount_sf + amount
                > u128::MAX ==> r == Err::<(), LendingError>(LendingError::MathOverflow),
            old(self).available_amount >= amount && old(self).borrowed_amount_sf + amount
                <= u128::MAX ==> r is Ok && *final(self) == old(self).lent(amount),
            r is Err ==> *final(self) == *old(self),
    {
        if !(self.available_amount >= amount) {
            return Err(LendingError::InsufficientLiquidity);
        }
        let borrowed = match self.borrowed_amount_sf.checked_add(amount as u128) {
            Some(v) => v,
            None => {
                return Err(LendingError::MathOverflow);
            },
        };
        self.available_amount = self.available_amount - amount;
        self.borrowed_amount_sf = borrowed;
        Ok(())
    }

    /// Moves `amount` from borrowed back to available liquidity.
    pub fn repay(&mut self, amount: u64) -> (r: Result<(), LendingError>)
        ensures
            old(self).borrowed_amount_sf >= amount && old(self).available_amount + amount
                <= u64::MAX ==> r is Ok && *final(self) == old(self).repaid(amount),
            old(self).borrowed_amount_sf < amount ==> r == Err::<(), LendingError>(
                LendingError::MathOverflow,
            ) && *final(self) == *old(self),
            old(self).borrowed_amount_sf >= amount && old(self).available_amount + amount
                > u64::MAX ==> r == Err::<(), LendingError>(LendingError::MathOverflow)
                && *final(self) == (ReserveLiquidity {
                borrowed_amount_sf: (old(self).borrowed_amount_sf - amount) as u128,
                ..*old(self)
            }),
    {
        self.borrowed_amount_sf = match self.borrowed_amount_sf.checked_sub(amount as u128) {
            Some(v) => v,
            None => {
                return Err(LendingError::MathOverflow);
            },
        };
        self.available_amount = match self.available_amount.checked_add(amount) {
            Some(v) => v,
            None => {
                return Err(LendingError::MathOverflow);
            },
        };
        Ok(())
    }

    /// Removes `amount` from the available liquidity.
    pub fn withdraw(&mut self, amount: u64) -> (r: Result<(), LendingError>)
        ensures
            old(self).available_amount >= amount ==> r is Ok && *final(self) == old(self).withdrawn(
                amount,
            ),
            old(self).available_amount < amount ==> r == Err::<(), LendingError>(
                LendingError::InsufficientLiquidity,
            ) && *final(self) == *old(self),
    {
        if !(self.available_amount >= amount) {
            return Err(LendingError::InsufficientLiquidity);
        }
        self.available_amount = self.available_amount - amount;
        Ok(())
    }

    /// Accrues `slot_elapsed` slots of interest at `borrow_rate` bps a year:
    /// the debt and the rate index grow by the period rate, and `protocol_fee`
    /// bps of the new debt goes to the protocol fees.
    pub fn accured_interest(&mut self, borrow_rate: u64, slot_elapsed: u64, protocol_fee: u64) -> (r:
        Result<(), LendingError>)
        ensures
            slot_elapsed == 0 ==> r == Err::<(), LendingError>(LendingError::ZeroSlotsElapsed),
            slot_elapsed > 0 && borrow_rate == 0 ==> r == Err::<(), LendingError>(
                LendingError::BorrowRateZeroFound,
            ),
            slot_elapsed > 0 && borrow_rate > 0 && old(self).accrual_fits(
                borrow_rate,
                slot_elapsed,
                protocol_fee,
            ) ==> r is Ok && *final(self) == old(self).accrued(
                borrow_rate,
                slot_elapsed,
                protocol_fee,
            ),
            slot_elapsed > 0 && borrow_rate > 0 && !old(self).accrual_fits(
                borrow_rate,
                slot_elapsed,
                protocol_fee,
            ) ==> r == Err::<(), LendingError>(LendingError::MathOverflow) && *final(self) == old(
                self,
            ).accrual_refused(borrow_rate, slot_elapsed, protocol_fee),
            slot_elapsed == 0 || borrow_rate == 0 ==> *final(self) == *old(self),
    {
        if !(slot_elapsed > 0) {
            return Err(LendingError::ZeroSlotsElapsed);
        }
        if !(borrow_rate > 0) {
            return Err(LendingError::BorrowRateZeroFound);
        }
        proof {
            assert(borrow_rate * slot_elapsed <= u64::MAX * u64::MAX) by (nonlinear_arith)
                requires
                    borrow_rate <= u64::MAX,
                    slot_elapsed <= u64::MAX,
            ;
        }
        let rate_slots: u128 = (borrow_rate as u128) * (slot_elapsed as u128);
        let scaled: u128 = match rate_slots.checked_mul(RATE_SCALE) {
            Some(v) => v,
            None => {
                return Err(LendingError::MathOverflow);
            },
        };
        let rate: u128 = scaled / (SLOTS_PER_YEAR as u128) / (BPS_SCALER as u128);
        let debt_accured: u128 = match rate.checked_mul(self.borrowed_amount_sf) {
            Some(v) => v / RATE_SCALE,
            None => {
                return Err(LendingError::MathOverflow);
            },
        };
        self.borrowed_amount_sf = match self.borrowed_amount_sf.checked_add(debt_accured) {
            Some(v) => v,
            None => {
                return Err(LendingError::MathOverflow);
            },
        };
        let fee: u128 = match debt_accured.checked_mul(protocol_fee as u128) {
            Some(v) => v / (BPS_SCALER as u128),
            None => {
                return Err(LendingError::MathOverflow);
            },
        };
        self.accumulated_protocol_fees = match self.accumulated_protocol_fees.checked_add(fee) {
            Some(v) => v,
            None => {
                return Err(LendingError::MathOverflow);
            },
        };
        let rate_accured: u128 = match rate.checked_mul(self.cumulative_borrow_rate_sf) {
            Some(v) => v / RATE_SCALE,
            None => {
                return Err(LendingError::MathOverflow);
            },
        };
        self.cumulative_borrow_rate_sf = match self.cumulative_borrow_rate_sf.checked_add(rate_accured) {
            Some(v) => v,
            None => {
                return Err(LendingError::MathOverflow);
            },
        };
        Ok(())
    }

    /// available + borrowed - fees; refused where the sum overflows or does not cover the fees.
    pub fn total_supply(&self) -> (r: Result<u128, LendingError>)
        ensures
            self.supply_ok() ==> r == Ok::<u128, LendingError>(self.supply_value() as u128),
            !self.supply_ok() ==> r == Err::<u128, LendingError>(LendingError::MathOverflow),
    {
        match (self.available_amount as u128).checked_add(self.borrowed_amount_sf) {
            Some(sum) => match sum.checked_sub(self.accumulated_protocol_fees) {
                Some(v) => Ok(v),
                None => Err(LendingError::MathOverflow),
            },
            None => Err(LendingError::MathOverflow),
        }
    }

    /// Borrowed share of the total supply, in percent; 0 for an empty pool.
    pub fn utilization_rate(&self) -> (r: Result<u128, LendingError>)
        requires
            self.utilization_computable(),
        ensures
            r == Ok::<u128, LendingError>(self.utilization_value() as u128),
    {
        let total: u128 = match self.total_supply() {
            Ok(v) => v,
            Err(_) => 0,
        };
        if total == 0 {
            return Ok(0);
        }
        let scaled: u128 = self.borrowed_amount_sf * PERCENT_SCALER;
        Ok(scaled / total)
    }
}

} // verus!
