use vstd::prelude::*;

use crate::error::LendingError;
use crate::pubkey::Pubkey;

verus! {

/// The cToken side of a reserve.
#[derive(Debug, Clone, Copy)]
pub struct ReserveCollateral {
    pub mint_pda: Pubkey,
    /// cTokens in circulation.
    pub mint_total_supply: u64,
    pub supply_vault_pda: Pubkey,
    pub padding1: [u64; 64],
    pub padding2: [u64; 64],
}

pub struct NewReserveCollateralParams {
    pub mint_pda: Pubkey,
    pub supply_vault_pda: Pubkey,
}

/// How cTokens and underlying liquidity convert: `collateral_supply` cTokens
/// are worth `total_liquidity` tokens.
#[derive(Debug, Clone, Copy)]
pub struct CollateralExchangeRate {
    pub collateral_supply: u128,
    pub total_liquidity: u128,
}

impl CollateralExchangeRate {
    /// Whether `collateral_to_liquidity(amount)` succeeds.
    pub open spec fn to_liquidity_ok(self, amount: u64) -> bool {
        amount * self.total_liquidity <= u128::MAX && self.collateral_supply != 0
    }

    /// `floor(amount * total_liquidity / collateral_supply)`, stored in a `u64`.
    pub open spec fn to_liquidity_value(self, amount: u64) -> u64 {
        (amount * self.total_liquidity / (self.collateral_supply as int)) as u64
    }

    /// Whether `liquidity_to_collateral(amount)` succeeds.
    pub open spec fn to_collateral_ok(self, amount: u64) -> bool {
        amount * self.collateral_supply <= u128::MAX && self.total_liquidity != 0
    }

    /// `floor(amount * collateral_supply / total_liquidity)`, stored in a `u64`.
    pub open spec fn to_collateral_value(self, amount: u64) -> u64 {
        (amount * self.collateral_supply / (self.total_liquidity as int)) as u64
    }

    /// The underlying liquidity `collateral_amount` cTokens redeem for, rounded down
    /// (and truncated to its low 64 bits where it does not fit a `u64`).
    pub fn collateral_to_liquidity(&self, collateral_amount: u64) -> (r: Result<u64, LendingError>)
        ensures
            self.to_liquidity_ok(collateral_amount) ==> r == Ok::<u64, LendingError>(
                self.to_liquidity_value(collateral_amount),
            ),
            !self.to_liquidity_ok(collateral_amount) ==> r == Err::<u64, LendingError>(
                LendingError::MathOverflow,
            ),
    {
        match (collateral_amount as u128).checked_mul(self.total_liquidity) {
            Some(n) => {
                if self.collateral_supply == 0 {
                    Err(LendingError::MathOverflow)
                } else {
                    let result: u128 = n / self.collateral_supply;
                    Ok(result as u64)
                }
            },
            None => Err(LendingError::MathOverflow),
        }
    }

    /// The cTokens `liquidity_amount` tokens buy, rounded down
    /// (and truncated to its low 64 bits where it does not fit a `u64`).
    pub fn liquidity_to_collateral(&self, liquidity_amount: u64) -> (r: Result<u64, LendingError>)
        ensures
            self.to_collateral_ok(liquidity_amount) ==> r == Ok::<u64, LendingError>(
                self.to_collateral_value(liquidity_amount),
            ),
            !self.to_collateral_ok(liquidity_amount) ==> r == Err::<u64, LendingError>(
                LendingError::MathOverflow,
            ),
    {
        match (liquidity_amount as u128).checked_mul(self.collateral_supply) {
            Some(n) => {
                if self.total_liquidity == 0 {
                    Err(LendingError::MathOverflow)
                } else {
                    let result: u128 = n / self.total_liquidity;
                    Ok(result as u64)
                }
            },
            None => Err(LendingError::MathOverflow),
        }
    }
}

impl ReserveCollateral {
    /// The exchange rate at this total liquidity: 1:1 while either side is empty.
    pub open spec fn rate_at(self, total_liquidity: u128) -> CollateralExchangeRate {
        if self.mint_total_supply == 0 || total_liquidity == 0 {
            CollateralExchangeRate { collateral_supply: 1, total_liquidity: 1 }
        } else {
            CollateralExchangeRate {
                collateral_supply: self.mint_total_supply as u128,
                total_liquidity,
            }
        }
    }

    /// No cTokens, no accounts, zero padding.
    pub open spec fn is_blank(self) -> bool {
        &&& self.mint_pda.is_zero()
        &&& self.mint_total_supply == 0
        &&& self.supply_vault_pda.is_zero()
        &&& forall|i: int| 0 <= i < 64 ==> #[trigger] self.padding1@[i] == 0
        &&& forall|i: int| 0 <= i < 64 ==> #[trigger] self.padding2@[i] == 0
    }

    pub fn default() -> (c: ReserveCollateral)
        ensures
            c.is_blank(),
    {
        ReserveCollateral {
            mint_pda: Pubkey::zero(),
            mint_total_supply: 0,
            supply_vault_pda: Pubkey::zero(),
            padding1: [0u64; 64],
            padding2: [0u64; 64],
        }
    }

    pub fn init(&mut self, params: NewReserveCollateralParams)
        ensures
            *final(self) == (ReserveCollateral {
                mint_pda: params.mint_pda,
                mint_total_supply: 0,
                supply_vault_pda: params.supply_vault_pda,
                ..*old(self)
            }),
    {
        self.mint_pda = params.mint_pda;
        self.mint_total_supply = 0;
        self.supply_vault_pda = params.supply_vault_pda;
    }

    /// Records newly minted cTokens.
    pub fn mint(&mut self, collateral_amount: u64) -> (r: Result<(), LendingError>)
        ensures
            old(self).mint_total_supply + collateral_amount <= u64::MAX ==> r is Ok && *final(self)
                == (ReserveCollateral {
                mint_total_supply: (old(self).mint_total_supply + collateral_amount) as u64,
                ..*old(self)
            }),
            old(self).mint_total_supply + collateral_amount > u64::MAX ==> r == Err::<
                (),
                LendingError,
            >(LendingError::MathOverflow) && *final(self) == *old(self),
    {
        match self.mint_total_supply.checked_add(collateral_amount) {
            Some(v) => {
                self.mint_total_supply = v;
                Ok(())
            },
            None => Err(LendingError::MathOverflow),
        }
    }

    /// Records burnt cTokens; burning more than the supply is refused.
    pub fn burn(&mut self, collateral_amount: u64) -> (r: Result<(), LendingError>)
        ensures
            old(self).mint_total_supply >= collateral_amount ==> r is Ok && *final(self) == (
            ReserveCollateral {
                mint_total_supply: (old(self).mint_total_supply - collateral_amount) as u64,
                ..*old(self)
            }),
            old(self).mint_total_supply < collateral_amount ==> r == Err::<(), LendingError>(
                LendingError::InsufficientCollateral,
            ) && *final(self) == *old(self),
    {
        if !(self.mint_total_supply >= collateral_amount) {
            return Err(LendingError::InsufficientCollateral);
        }
        self.mint_total_supply = self.mint_total_supply - collateral_amount;
        Ok(())
    }

    /// The exchange rate at this total liquidity: 1:1 while either side is empty.
    pub fn exchange_rate(&self, total_liquidity: u128) -> (rate: CollateralExchangeRate)
        ensures
            rate == self.rate_at(total_liquidity),
    {
        if self.mint_total_supply == 0 || total_liquidity == 0 {
            CollateralExchangeRate { collateral_supply: 1, total_liquidity: 1 }
        } else {
            CollateralExchangeRate {
                collateral_supply: self.mint_total_supply as u128,
                total_liquidity,
            }
        }
    }
}

} // verus!
