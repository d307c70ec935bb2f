use vstd::prelude::*;

use crate::constants::RATE_SCALE;
use crate::error::LendingError;
use crate::pubkey::Pubkey;
use crate::reserve_collateral::{CollateralExchangeRate, ReserveCollateral};
use crate::reserve_config::ReserveConfig;
use crate::reserve_liquidity::ReserveLiquidity;

verus! {

pub const RESERVE_VERSION: u64 = 1;

/// One asset's pool: its liquidity, its cTokens and its configuration.
#[derive(Debug, Clone, Copy)]
pub struct Reserve {
    pub liquidity: ReserveLiquidity,
    pub config: ReserveConfig,
    pub collateral: ReserveCollateral,
    pub version: u64,
    pub last_update_slot: u64,
    pub lending_market: Pubkey,
    pub bump: u8,
    pub padding: [u8; 7],
}

impl Reserve {
    /// Whether `current_borrow_rate` runs without overflowing.
    pub open spec fn rate_computable(self) -> bool {
        &&& self.liquidity.utilization_computable()
        &&& self.liquidity.utilization_value() * 100 <= u128::MAX
    }

    /// The borrow rate now: the curve at the utilization in basis points
    /// (stored in a `u16`, as the rate itself is).
    pub open spec fn current_rate(self) -> u16 {
        self.config.rate_curve(((self.liquidity.utilization_value() * 100) as u16) as int) as u16
    }

    /// Slots since the last accrual (0 when `current_slot` is not later).
    pub open spec fn slots_since(self, current_slot: u64) -> int {
        if current_slot > self.last_update_slot {
            current_slot - self.last_update_slot
        } else {
            0
        }
    }

    /// Whether accruing up to `current_slot` succeeds.
    pub open spec fn accrue_ok(self, current_slot: u64) -> bool {
        self.slots_since(current_slot) == 0 || self.current_rate() == 0
            || self.liquidity.accrual_fits(
            self.current_rate() as u64,
            self.slots_since(current_slot) as u64,
            self.config.protocol_fee as u64,
        )
    }

    /// The reserve after accruing interest up to `current_slot`.
    pub open spec fn accrued_at(self, current_slot: u64) -> Reserve {
        if self.slots_since(current_slot) == 0 {
            self
        } else if self.current_rate() == 0 {
            Reserve { last_update_slot: current_slot, ..self }
        } else {
            Reserve {
                liquidity: self.liquidity.accrued(
                    self.current_rate() as u64,
                    self.slots_since(current_slot) as u64,
                    self.config.protocol_fee as u64,
                ),
                last_update_slot: current_slot,
                ..self
            }
        }
    }

    /// The exchange rate at the current total supply (taken as 0 where it cannot be computed).
    pub open spec fn exchange_rate_now(self) -> CollateralExchangeRate {
        self.collateral.rate_at(self.liquidity.supply_or_zero() as u128)
    }

    /// What `deposit_liquidity(amount)` returns.
    pub open spec fn deposit_result(self, amount: u64) -> Result<u64, LendingError> {
        let rate = self.exchange_rate_now();
        if !self.liquidity.supply_ok() {
            Err(LendingError::MathOverflow)
        } else if self.liquidity.supply_value() + amount > self.config.deposit_limit {
            Err(LendingError::DepositLimitExceeded)
        } else if !rate.to_collateral_ok(amount) {
            Err(LendingError::MathOverflow)
        } else if self.liquidity.available_amount + amount > u64::MAX {
            Err(LendingError::MathOverflow)
        } else if self.collateral.mint_total_supply + rate.to_collateral_value(amount) > u64::MAX {
            Err(LendingError::MathOverflow)
        } else {
            Ok(rate.to_collateral_value(amount))
        }
    }

    /// The reserve after `amount` tokens come in and `minted` cTokens go out.
    pub open spec fn after_deposit(self, amount: u64, minted: u64) -> Reserve {
        Reserve {
            liquidity: ReserveLiquidity {
                available_amount: (self.liquidity.available_amount + amount) as u64,
                ..self.liquidity
            },
            collateral: ReserveCollateral {
                mint_total_supply: (self.collateral.mint_total_supply + minted) as u64,
                ..self.collateral
            },
            ..self
        }
    }

    /// The reserve after a refused deposit: when only the cToken mint would
    /// overflow, the tokens have already been counted in.
    pub open spec fn deposit_refused(self, amount: u64) -> Reserve {
        let rate = self.exchange_rate_now();
        if self.liquidity.supply_ok() && self.liquidity.supply_value() + amount
            <= self.config.deposit_limit && rate.to_collateral_ok(amount)
            && self.liquidity.available_amount + amount <= u64::MAX {
            Reserve { liquidity: self.liquidity.deposited(amount), ..self }
        } else {
            self
        }
    }

    /// What `redeem_collateral(collateral_amount)` returns.
    pub open spec fn redeem_result(self, collateral_amount: u64) -> Result<u64, LendingError> {
        let rate = self.exchange_rate_now();
        if !rate.to_liquidity_ok(collateral_amount) {
            Err(LendingError::MathOverflow)
        } else if self.collateral.mint_total_supply < collateral_amount {
            Err(LendingError::InsufficientCollateral)
        } else if self.liquidity.available_amount < rate.to_liquidity_value(collateral_amount) {
            Err(LendingError::InsufficientLiquidity)
        } else {
            Ok(rate.to_liquidity_value(collateral_amount))
        }
    }

    /// The reserve after `burnt` cTokens come back and `paid` tokens go out.
    pub open spec fn after_redeem(self, burnt: u64, paid: u64) -> Reserve {
        Reserve {
            liquidity: ReserveLiquidity {
                available_amount: (self.liquidity.available_amount - paid) as u64,
                ..self.liquidity
            },
            collateral: ReserveCollateral {
                mint_total_supply: (self.collateral.mint_total_supply - burnt) as u64,
                ..self.collateral
            },
            ..self
        }
    }

    /// The reserve after a refused redemption: when only the payout fails for
    /// want of liquidity, the cTokens have already been burnt.
    pub open spec fn redeem_refused(self, collateral_amount: u64) -> Reserve {
        if self.exchange_rate_now().to_liquidity_ok(collateral_amount)
            && self.collateral.mint_total_supply >= collateral_amount {
            Reserve {
                collateral: ReserveCollateral {
                    mint_total_supply: (self.collateral.mint_total_supply - collateral_amount) as u64,
                    ..self.collateral
                },
                ..self
            }
        } else {
            self
        }
    }

    /// What `borrow(amount)` returns.
    pub open spec fn borrow_result(self, amount: u64) -> Result<(), LendingError> {
        if self.liquidity.borrowed_amount_sf >= self.config.borrow_limit {
            Err(LendingError::BorrowLimitExceeded)
        } else if self.liquidity.available_amount < amount {
            Err(LendingError::InsufficientLiquidity)
        } else if self.liquidity.borrowed_amount_sf + amount > u128::MAX {
            Err(LendingError::MathOverflow)
        } else {
            Ok(())
        }
    }

    /// The reserve after `amount` tokens are lent out.
    pub open spec fn after_borrow(self, amount: u64) -> Reserve {
        Reserve {
            liquidity: ReserveLiquidity {
                available_amount: (self.liquidity.available_amount - amount) as u64,
                borrowed_amount_sf: (self.liquidity.borrowed_amount_sf + amount) as u128,
                ..self.liquidity
            },
            ..self
        }
    }

    /// Whether `repay(amount)` succeeds.
    pub open spec fn repay_ok(self, amount: u64) -> bool {
        self.liquidity.borrowed_amount_sf >= amount && self.liquidity.available_amount + amount
            <= u64::MAX
    }

    /// The reserve after `amount` tokens are paid back.
    pub open spec fn after_repay(self, amount: u64) -> Reserve {
        Reserve {
            liquidity: ReserveLiquidity {
                available_amount: (self.liquidity.available_amount + amount) as u64,
                borrowed_amount_sf: (self.liquidity.borrowed_amount_sf - amount) as u128,
                ..self.liquidity
            },
            ..self
        }
    }

    /// An all-zero reserve whose rate index starts at 1.0.
    pub fn default() -> (r: Reserve)
        ensures
            r.liquidity.is_blank(),
            r.config.is_blank(),
            r.collateral.is_blank(),
            r.version == 0,
            r.last_update_slot == 0,
            r.lending_market.is_zero(),
            r.bump == 0,
            forall|i: int| 0 <= i < 7 ==> #[trigger] r.padding@[i] == 0,
    {
        Reserve {
            liquidity: ReserveLiquidity::default(),
            config: ReserveConfig::default(),
            collateral: ReserveCollateral::default(),
            version: 0,
            last_update_slot: 0,
            lending_market: Pubkey::zero(),
            bump: 0,
            padding: [0u8; 7],
        }
    }

    /// The cToken exchange rate at the current total supply.
    pub fn collateral_exchange_rate(&self) -> (rate: CollateralExchangeRate)
        ensures
            rate == self.exchange_rate_now(),
    {
        let total: u128 = match self.liquidity.total_supply() {
            Ok(v) => v,
            Err(_) => 0,
        };
        self.collateral.exchange_rate(total)
    }

    /// Borrowed share of the supply, in percent.
    pub fn utilization_rate(&self) -> (r: Result<u128, LendingError>)
        requires
            self.liquidity.utilization_computable(),
        ensures
            r == Ok::<u128, LendingError>(self.liquidity.utilization_value() as u128),
    {
        self.liquidity.utilization_rate()
    }

    /// Whether `current_borrow_rate` (and so interest accrual) can run.
    pub fn rate_is_computable(&self) -> (b: bool)
        ensures
            b == self.rate_computable(),
    {
        let total: u128 = match self.liquidity.total_supply() {
            Ok(v) => v,
            Err(_) => 0,
        };
        if total == 0 {
            return true;
        }
        match self.liquidity.borrowed_amount_sf.checked_mul(100) {
            Some(scaled) => (scaled / total).checked_mul(100).is_some(),
            None => false,
        }
    }

    /// The borrow rate at the current utilization, in basis points.
    pub fn current_borrow_rate(&self) -> (r: Result<u16, LendingError>)
        requires
            self.rate_computable(),
        ensures
            r == Ok::<u16, LendingError>(self.current_rate()),
    {
        let utilization = self.liquidity.utilization_rate()?;
        let utilization_bps: u128 = utilization * 100;
        self.config.borrow_rate(utilization_bps as u16)
    }

    /// Whether the total supply has reached the deposit limit.
    pub fn deposit_limit_crossed(&self) -> (b: bool)
        ensures
            b == (self.liquidity.supply_or_zero() >= self.config.deposit_limit),
    {
        let total: u128 = match self.liquidity.total_supply() {
            Ok(v) => v,
            Err(_) => 0,
        };
        total >= self.config.deposit_limit as u128
    }

    /// Whether the borrowed liquidity has reached the borrow limit.
    pub fn borrow_limit_crossed(&self) -> (b: bool)
        ensures
            b == (self.liquidity.borrowed_amount_sf >= self.config.borrow_limit),
    {
        self.liquidity.borrowed_amount_sf >= self.config.borrow_limit as u128
    }

    /// Takes in `amount` tokens and mints cTokens at the current exchange rate;
    /// returns the cTokens minted. A deposit past the deposit limit is refused.
    pub fn deposit_liquidity(&mut self, amount: u64) -> (r: Result<u64, LendingError>)
        ensures
            r == old(self).deposit_result(amount),
            r matches Ok(minted) ==> *final(self) == old(self).after_deposit(amount, minted),
            r is Err ==> *final(self) == old(self).deposit_refused(amount),
    {
        let total = self.liquidity.total_supply()?;
        if !(total.saturating_add(amount as u128) <= self.config.deposit_limit as u128) {
            return Err(LendingError::DepositLimitExceeded);
        }
        let exchange_rate = self.collateral_exchange_rate();
        let collateral_amount = exchange_rate.liquidity_to_collateral(amount)?;
        self.liquidity.deposit(amount)?;
        self.collateral.mint(collateral_amount)?;
        Ok(collateral_amount)
    }

    /// Burns `collateral_amount` cTokens and pays out their underlying value at
    /// the current exchange rate; returns the tokens paid.
    pub fn redeem_collateral(&mut self, collateral_amount: u64) -> (r: Result<u64, LendingError>)
        ensures
            r == old(self).redeem_result(collateral_amount),
            r matches Ok(paid) ==> *final(self) == old(self).after_redeem(collateral_amount, paid),
            r is Err ==> *final(self) == old(self).redeem_refused(collateral_amount),
    {
        let exchange_rate = self.collateral_exchange_rate();
        let liquidity_amount = exchange_rate.collateral_to_liquidity(collateral_amount)?;
        self.collateral.burn(collateral_amount)?;
        self.liquidity.withdraw(liquidity_amount)?;
        Ok(liquidity_amount)
    }

    /// Lends out `amount` tokens; refused once the borrow limit has been reached.
    pub fn borrow(&mut self, amount: u64) -> (r: Result<(), LendingError>)
        ensures
            r == old(self).borrow_result(amount),
            r is Ok ==> *final(self) == old(self).after_borrow(amount),
            r is Err ==> *final(self) == *old(self),
    {
        if self.borrow_limit_crossed() {
            return Err(LendingError::BorrowLimitExceeded);
        }
        match self.liquidity.borrow(amount) {
            Ok(()) => Ok(()),
            Err(e) => Err(e),
        }
    }

    /// Takes back `amount` repaid tokens.
    pub fn repay(&mut self, amount: u64) -> (r: Result<(), LendingError>)
        ensures
            old(self).repay_ok(amount) ==> r is Ok && *final(self) == old(self).after_repay(amount),
            old(self).liquidity.borrowed_amount_sf < amount ==> r == Err::<(), LendingError>(
                LendingError::MathOverflow,
            ) && *final(self) == *old(self),
            old(self).liquidity.borrowed_amount_sf >= amount && !old(self).repay_ok(amount) ==> r
                == Err::<(), LendingError>(LendingError::MathOverflow) && *final(self) == (
            Reserve {
                liquidity: ReserveLiquidity {
                    borrowed_amount_sf: (old(self).liquidity.borrowed_amount_sf - amount) as u128,
                    ..old(self).liquidity
                },
                ..*old(self)
            }),
    {
        self.liquidity.repay(amount)
    }

    /// Accrues interest for the slots since the last update at the current
    /// borrow rate, then records `current_slot` as the last update.
    pub fn accrue_interest(&mut self, current_slot: u64) -> (r: Result<(), LendingError>)
        requires
            old(self).slots_since(current_slot) > 0 ==> old(self).rate_computable(),
        ensures
            old(self).accrue_ok(current_slot) ==> r is Ok && *final(self) == old(self).accrued_at(
                current_slot,
            ),
            !old(self).accrue_ok(current_slot) ==> r == Err::<(), LendingError>(
                LendingError::MathOverflow,
            ) && *final(self) == (Reserve {
                liquidity: old(self).liquidity.accrual_refused(
                    old(self).current_rate() as u64,
                    old(self).slots_since(current_slot) as u64,
                    old(self).config.protocol_fee as u64,
                ),
                ..*old(self)
            }),
    {
        let slots_elapsed = current_slot.saturating_sub(self.last_update_slot);
        if slots_elapsed == 0 {
            return Ok(());
        }
        let borrow_rate = self.current_borrow_rate()?;
        if borrow_rate > 0 {
            self.liquidity.accured_interest(
                borrow_rate as u64,
                slots_elapsed,
                self.config.protocol_fee as u64,
            )?;
        }
        self.last_update_slot = current_slot;
        Ok(())
    }
}

} // verus!
