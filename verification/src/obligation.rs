use vstd::prelude::*;

use crate::constants::{MAX_BORROW_COUNT_IN_RESERVE, MAX_DEPOSITS_COUNT_IN_RESERVE, RATE_SCALE};
use crate::error::LendingError;
use crate::last_update::LastUpdate;
use crate::pubkey::{zero_key, Pubkey};
use vstd::array::spec_array_update;

verus! {

/// cTokens of one reserve locked as collateral. A slot whose reserve is the
/// zero address is unused.
#[derive(Debug, Clone, Copy)]
pub struct ObligationCollateral {
    pub deposit_reserve: Pubkey,
    /// Locked cTokens.
    pub deposited_amount: u64,
    /// Value of the collateral in USD × `RATE_SCALE`, weighted by the
    /// reserve's liquidation threshold (set by a refresh).
    pub market_value_sf: u128,
}

/// Debt owed to one reserve. A slot whose reserve is the zero address is unused.
#[derive(Debug, Clone, Copy)]
pub struct ObligationLiquidity {
    pub borrow_reserve: Pubkey,
    /// Debt in tokens × `RATE_SCALE`.
    pub borrowed_amount_sf: u128,
    /// The reserve's rate index when the debt was last brought current.
    pub cumulative_borrow_rate_sf: u128,
    /// Value of the debt in USD × `RATE_SCALE` (set by a refresh).
    pub market_value_sf: u128,
}

pub struct InitObligationParams {
    pub bump: u8,
    pub owner: Pubkey,
    pub lending_market: Pubkey,
}

/// One user's position in a market: up to eight collateral deposits and
/// eight borrows.
#[derive(Debug, Clone, Copy)]
pub struct Obligation {
    pub lending_market: Pubkey,
    pub owner: Pubkey,
    pub last_update: LastUpdate,
    pub deposits: [ObligationCollateral; 8],
    pub borrows: [ObligationLiquidity; 8],
    pub deposits_count: u8,
    pub borrows_count: u8,
    pub bump: u8,
    pub padding: [u8; 13],
    pub padding1: [u64; 64],
}

impl ObligationCollateral {
    pub open spec fn active(self) -> bool {
        !self.deposit_reserve.is_zero()
    }

    /// An unused slot: zero address, nothing deposited, no value.
    pub open spec fn blank() -> ObligationCollateral {
        ObligationCollateral { deposit_reserve: zero_key(), deposited_amount: 0, market_value_sf: 0 }
    }

    /// A slot freshly opened for `reserve`.
    pub open spec fn opened(reserve: Pubkey) -> ObligationCollateral {
        ObligationCollateral { deposit_reserve: reserve, deposited_amount: 0, market_value_sf: 0 }
    }

    pub fn default() -> (c: ObligationCollateral)
        ensures
            c == ObligationCollateral::blank(),
            !c.active(),
    {
        proof {
            crate::pubkey::lemma_zero_key();
        }
        ObligationCollateral { deposit_reserve: Pubkey::zero(), deposited_amount: 0, market_value_sf: 0 }
    }

    /// Opens the slot for `deposit_reserve`, empty.
    pub fn init(&mut self, deposit_reserve: Pubkey)
        ensures
            *final(self) == ObligationCollateral::opened(deposit_reserve),
    {
        *self = ObligationCollateral::default();
        self.deposit_reserve = deposit_reserve;
    }

    pub fn is_active(&self) -> (b: bool)
        ensures
            b == self.active(),
    {
        !self.deposit_reserve.is_default()
    }
}

impl ObligationLiquidity {
    pub open spec fn active(self) -> bool {
        !self.borrow_reserve.is_zero()
    }

    /// An unused slot: zero address, no debt, rate index 1.0, no value.
    pub open spec fn blank() -> ObligationLiquidity {
        ObligationLiquidity {
            borrow_reserve: zero_key(),
            borrowed_amount_sf: 0,
            cumulative_borrow_rate_sf: RATE_SCALE,
            market_value_sf: 0,
        }
    }

    /// A slot freshly opened for `reserve` at rate index `rate`.
    pub open spec fn opened(reserve: Pubkey, rate: u128) -> ObligationLiquidity {
        ObligationLiquidity {
            borrow_reserve: reserve,
            borrowed_amount_sf: 0,
            cumulative_borrow_rate_sf: rate,
            market_value_sf: 0,
        }
    }

    pub fn default() -> (l: ObligationLiquidity)
        ensures
            l == ObligationLiquidity::blank(),
            !l.active(),
    {
        proof {
            crate::pubkey::lemma_zero_key();
        }
        ObligationLiquidity {
            borrow_reserve: Pubkey::zero(),
            borrowed_amount_sf: 0,
            cumulative_borrow_rate_sf: RATE_SCALE,
            market_value_sf: 0,
        }
    }

    /// Opens the slot for `borrow_reserve` with no debt at rate index `cumulative_borrow_rate_sf`.
    pub fn init(&mut self, borrow_reserve: Pubkey, cumulative_borrow_rate_sf: u128)
        ensures
            *final(self) == ObligationLiquidity::opened(borrow_reserve, cumulative_borrow_rate_sf),
    {
        *self = ObligationLiquidity::default();
        self.borrow_reserve = borrow_reserve;
        self.cumulative_borrow_rate_sf = cumulative_borrow_rate_sf;
    }

    pub fn is_active(&self) -> (b: bool)
        ensures
            b == self.active(),
    {
        !self.borrow_reserve.is_default()
    }
}

/// The debt slot brought current to the reserve's rate index `rate`:
/// debt × rate / stored rate. A lower rate is refused; an unused slot or an
/// unchanged rate leaves the slot as it is.
pub open spec fn accrue_slot(slot: ObligationLiquidity, rate: u128) -> Result<ObligationLiquidity, LendingError> {
    if !slot.active() {
        Ok(slot)
    } else if rate < slot.cumulative_borrow_rate_sf {
        Err(LendingError::BorrowRateDecreased)
    } else if rate == slot.cumulative_borrow_rate_sf {
        Ok(slot)
    } else if slot.borrowed_amount_sf * rate > u128::MAX || slot.cumulative_borrow_rate_sf == 0 {
        Err(LendingError::MathOverflow)
    } else {
        Ok(
            ObligationLiquidity {
                borrowed_amount_sf: (slot.borrowed_amount_sf * rate / (
                slot.cumulative_borrow_rate_sf as int)) as u128,
                cumulative_borrow_rate_sf: rate,
                ..slot
            },
        )
    }
}

/// `count + 1`, saturating at 255.
pub open spec fn inc_count(count: u8) -> u8 {
    if count < 255 {
        (count + 1) as u8
    } else {
        255
    }
}

/// `count - 1`, saturating at 0.
pub open spec fn dec_count(count: u8) -> u8 {
    if count > 0 {
        (count - 1) as u8
    } else {
        0
    }
}

impl Obligation {
    /// The first collateral slot at or after `i` whose reserve is `key`.
    pub open spec fn find_deposit_from(self, key: Pubkey, i: int) -> Option<int>
        decreases 8 - i,
    {
        if i < 0 || i >= 8 {
            None
        } else if self.deposits@[i].deposit_reserve == key {
            Some(i)
        } else {
            self.find_deposit_from(key, i + 1)
        }
    }

    /// The first unused collateral slot at or after `i`.
    pub open spec fn find_free_deposit_from(self, i: int) -> Option<int>
        decreases 8 - i,
    {
        if i < 0 || i >= 8 {
            None
        } else if !self.deposits@[i].active() {
            Some(i)
        } else {
            self.find_free_deposit_from(i + 1)
        }
    }

    /// The first debt slot at or after `i` whose reserve is `key`.
    pub open spec fn find_borrow_from(self, key: Pubkey, i: int) -> Option<int>
        decreases 8 - i,
    {
        if i < 0 || i >= 8 {
            None
        } else if self.borrows@[i].borrow_reserve == key {
            Some(i)
        } else {
            self.find_borrow_from(key, i + 1)
        }
    }

    /// The first unused debt slot at or after `i`.
    pub open spec fn find_free_borrow_from(self, i: int) -> Option<int>
        decreases 8 - i,
    {
        if i < 0 || i >= 8 {
            None
        } else if !self.borrows@[i].active() {
            Some(i)
        } else {
            self.find_free_borrow_from(i + 1)
        }
    }

    /// The collateral slot for `key`: its own slot, else the first unused one.
    pub open spec fn deposit_target(self, key: Pubkey) -> Option<int> {
        match self.find_deposit_from(key, 0) {
            Some(i) => Some(i),
            None => self.find_free_deposit_from(0),
        }
    }

    /// The debt slot for `key`: its own slot, else the first unused one.
    pub open spec fn borrow_target(self, key: Pubkey) -> Option<int> {
        match self.find_borrow_from(key, 0) {
            Some(i) => Some(i),
            None => self.find_free_borrow_from(0),
        }
    }

    /// What `deposit(reserve, amount)` returns.
    pub open spec fn deposit_result(self, reserve: Pubkey, amount: u64) -> Result<(), LendingError> {
        if amount == 0 {
            Err(LendingError::InvalidAmount)
        } else {
            match self.deposit_target(reserve) {
                None => Err(LendingError::ObligationDepositsFull),
                Some(i) => {
                    let slot = if self.deposits@[i].active() {
                        self.deposits@[i]
                    } else {
                        ObligationCollateral::opened(reserve)
                    };
                    if slot.deposited_amount + amount > u64::MAX {
                        Err(LendingError::MathOverflow)
                    } else {
                        Ok(())
                    }
                },
            }
        }
    }

    /// The obligation after a successful `deposit(reserve, amount)`.
    pub open spec fn after_deposit(self, reserve: Pubkey, amount: u64) -> Obligation {
        let i = self.deposit_target(reserve)->Some_0;
        let was_active = self.deposits@[i].active();
        let slot = if was_active {
            self.deposits@[i]
        } else {
            ObligationCollateral::opened(reserve)
        };
        Obligation {
            deposits: spec_array_update(
                self.deposits,
                i,
                ObligationCollateral {
                    deposited_amount: (slot.deposited_amount + amount) as u64,
                    ..slot
                },
            ),
            deposits_count: if was_active {
                self.deposits_count
            } else {
                inc_count(self.deposits_count)
            },
            ..self
        }
    }

    /// What `withdraw(reserve, amount)` returns.
    pub open spec fn withdraw_result(self, reserve: Pubkey, amount: u64) -> Result<(), LendingError> {
        if amount == 0 {
            Err(LendingError::InvalidAmount)
        } else {
            match self.find_deposit_from(reserve, 0) {
                None => Err(LendingError::DepositNotFound),
                Some(i) => if amount > self.deposits@[i].deposited_amount {
                    Err(LendingError::InsufficientCollateral)
                } else {
                    Ok(())
                },
            }
        }
    }

    /// The obligation after a successful `withdraw(reserve, amount)`: an emptied slot is freed.
    pub open spec fn after_withdraw(self, reserve: Pubkey, amount: u64) -> Obligation {
        let i = self.find_deposit_from(reserve, 0)->Some_0;
        let left = self.deposits@[i].deposited_amount - amount;
        if left == 0 {
            Obligation {
                deposits: spec_array_update(
                    self.deposits,
                    i,
                    ObligationCollateral::blank(),
                ),
                deposits_count: dec_count(self.deposits_count),
                ..self
            }
        } else {
            Obligation {
                deposits: spec_array_update(
                    self.deposits,
                    i,
                    ObligationCollateral { deposited_amount: left as u64, ..self.deposits@[i] },
                ),
                ..self
            }
        }
    }
}


impl Obligation {
    /// What `borrow(reserve, amount, rate)` returns.
    pub open spec fn borrow_result(self, reserve: Pubkey, amount: u128, rate: u128) -> Result<(), LendingError> {
        if amount == 0 {
            Err(LendingError::InvalidAmount)
        } else {
            match self.borrow_target(reserve) {
                None => Err(LendingError::ObligationBorrowsFull),
                Some(i) => {
                    let slot = if self.borrows@[i].active() {
                        self.borrows@[i]
                    } else {
                        ObligationLiquidity::opened(reserve, rate)
                    };
                    if amount * RATE_SCALE > u128::MAX {
                        Err(LendingError::MathOverflow)
                    } else if slot.borrowed_amount_sf + amount * RATE_SCALE > u128::MAX {
                        Err(LendingError::MathOverflow)
                    } else {
                        Ok(())
                    }
                },
            }
        }
    }

    /// The obligation after a successful `borrow(reserve, amount, rate)`:
    /// the debt grows by `amount × RATE_SCALE`.
    pub open spec fn after_borrow(self, reserve: Pubkey, amount: u128, rate: u128) -> Obligation {
        let i = self.borrow_target(reserve)->Some_0;
        let was_active = self.borrows@[i].active();
        let slot = if was_active {
            self.borrows@[i]
        } else {
            ObligationLiquidity::opened(reserve, rate)
        };
        Obligation {
            borrows: spec_array_update(
                self.borrows,
                i,
                ObligationLiquidity {
                    borrowed_amount_sf: (slot.borrowed_amount_sf + amount * RATE_SCALE) as u128,
                    ..slot
                },
            ),
            borrows_count: if was_active {
                self.borrows_count
            } else {
                inc_count(self.borrows_count)
            },
            ..self
        }
    }

    /// The obligation after a refused borrow: a slot opened for a new reserve
    /// stays open (with no debt) when the amount then overflows.
    pub open spec fn borrow_refused(self, reserve: Pubkey, amount: u128, rate: u128) -> Obligation {
        match self.borrow_target(reserve) {
            Some(i) => if amount != 0 && !self.borrows@[i].active() {
                Obligation {
                    borrows: spec_array_update(
                        self.borrows,
                        i,
                        ObligationLiquidity::opened(reserve, rate),
                    ),
                    borrows_count: inc_count(self.borrows_count),
                    ..self
                }
            } else {
                self
            },
            None => self,
        }
    }

    /// What `repay(reserve, amount)` returns.
    pub open spec fn repay_result(self, reserve: Pubkey, amount: u128) -> Result<(), LendingError> {
        if amount == 0 {
            Err(LendingError::InvalidAmount)
        } else {
            match self.find_borrow_from(reserve, 0) {
                None => Err(LendingError::BorrowNotFound),
                Some(i) => if amount * RATE_SCALE > u128::MAX {
                    Err(LendingError::MathOverflow)
                } else if amount * RATE_SCALE > self.borrows@[i].borrowed_amount_sf {
                    Err(LendingError::InvalidAmount)
                } else {
                    Ok(())
                },
            }
        }
    }

    /// The obligation after a successful `repay(reserve, amount)`: the debt
    /// shrinks by `amount × RATE_SCALE`, and a slot left owing less than one
    /// token is closed.
    pub open spec fn after_repay(self, reserve: Pubkey, amount: u128) -> Obligation {
        let i = self.find_borrow_from(reserve, 0)->Some_0;
        let left = self.borrows@[i].borrowed_amount_sf - amount * RATE_SCALE;
        if left < RATE_SCALE {
            Obligation {
                borrows: spec_array_update(self.borrows, i, ObligationLiquidity::blank()),
                borrows_count: dec_count(self.borrows_count),
                ..self
            }
        } else {
            Obligation {
                borrows: spec_array_update(
                    self.borrows,
                    i,
                    ObligationLiquidity { borrowed_amount_sf: left as u128, ..self.borrows@[i] },
                ),
                ..self
            }
        }
    }

    /// What `find_or_add_deposit(reserve)` returns.
    pub open spec fn deposit_slot_result(self, reserve: Pubkey) -> Result<usize, LendingError> {
        match self.deposit_target(reserve) {
            Some(i) => Ok(i as usize),
            None => Err(LendingError::ObligationDepositsFull),
        }
    }

    /// What `find_or_add_borrow(reserve)` returns.
    pub open spec fn borrow_slot_result(self, reserve: Pubkey) -> Result<usize, LendingError> {
        match self.borrow_target(reserve) {
            Some(i) => Ok(i as usize),
            None => Err(LendingError::ObligationBorrowsFull),
        }
    }

    /// What `find_deposit(reserve)` returns.
    pub open spec fn find_deposit_result(self, reserve: Pubkey) -> Result<usize, LendingError> {
        match self.find_deposit_from(reserve, 0) {
            Some(i) => Ok(i as usize),
            None => Err(LendingError::DepositNotFound),
        }
    }

    /// What `find_borrow(reserve)` returns.
    pub open spec fn find_borrow_result(self, reserve: Pubkey) -> Result<usize, LendingError> {
        match self.find_borrow_from(reserve, 0) {
            Some(i) => Ok(i as usize),
            None => Err(LendingError::BorrowNotFound),
        }
    }

    /// Both padding arrays are zero.
    pub open spec fn padding_is_zero(self) -> bool {
        &&& forall|i: int| 0 <= i < 13 ==> #[trigger] self.padding@[i] == 0
        &&& forall|i: int| 0 <= i < 64 ==> #[trigger] self.padding1@[i] == 0
    }

    /// A fresh obligation: all slots unused, counts 0, never refreshed.
    pub open spec fn is_fresh(self) -> bool {
        &&& forall|i: int| 0 <= i < 8 ==> #[trigger] self.deposits@[i] == ObligationCollateral::blank()
        &&& forall|i: int| 0 <= i < 8 ==> #[trigger] self.borrows@[i] == ObligationLiquidity::blank()
        &&& self.deposits_count == 0
        &&& self.borrows_count == 0
        &&& self.last_update.slot == 0
        &&& self.last_update.timestamp == 0
    }

    pub fn default() -> (o: Obligation)
        ensures
            o.is_fresh(),
            o.lending_market.is_zero(),
            o.owner.is_zero(),
            o.bump == 0,
            o.padding_is_zero(),
    {
        Obligation {
            lending_market: Pubkey::zero(),
            owner: Pubkey::zero(),
            last_update: LastUpdate::default(),
            deposits: [ObligationCollateral::default(); 8],
            borrows: [ObligationLiquidity::default(); 8],
            deposits_count: 0,
            borrows_count: 0,
            bump: 0,
            padding: [0u8; 13],
            padding1: [0u64; 64],
        }
    }

    /// Resets the obligation for `params.owner` in `params.lending_market`.
    pub fn init(&mut self, params: InitObligationParams)
        ensures
            final(self).is_fresh(),
            final(self).bump == params.bump,
            final(self).owner == params.owner,
            final(self).lending_market == params.lending_market,
            final(self).padding_is_zero(),
    {
        *self = Obligation::default();
        self.bump = params.bump;
        self.owner = params.owner;
        self.lending_market = params.lending_market;
    }

    /// Locks `amount` more cTokens of `reserve`, opening a slot for it if needed.
    pub fn deposit(&mut self, reserve: Pubkey, amount: u64) -> (r: Result<(), LendingError>)
        ensures
            r == old(self).deposit_result(reserve, amount),
            r is Ok ==> *final(self) == old(self).after_deposit(reserve, amount),
            r is Err ==> *final(self) == *old(self),
    {
        if !(amount > 0) {
            return Err(LendingError::InvalidAmount);
        }
        let slot = self.find_or_add_deposit(reserve)?;
        let was_active = self.deposits[slot].is_active();
        let mut entry = self.deposits[slot];
        if !was_active {
            entry.init(reserve);
        }
        let total = match entry.deposited_amount.checked_add(amount) {
            Some(v) => v,
            None => {
                return Err(LendingError::MathOverflow);
            },
        };
        entry.deposited_amount = total;
        self.deposits[slot] = entry;
        if !was_active {
            self.deposits_count = self.deposits_count.saturating_add(1);
        }
        Ok(())
    }

    /// Unlocks `amount` cTokens of `reserve`; an emptied slot is freed.
    pub fn withdraw(&mut self, reserve: Pubkey, amount: u64) -> (r: Result<(), LendingError>)
        ensures
            r == old(self).withdraw_result(reserve, amount),
            r is Ok ==> *final(self) == old(self).after_withdraw(reserve, amount),
            r is Err ==> *final(self) == *old(self),
    {
        if !(amount > 0) {
            return Err(LendingError::InvalidAmount);
        }
        let slot = self.find_deposit(reserve)?;
        if !(amount <= self.deposits[slot].deposited_amount) {
            return Err(LendingError::InsufficientCollateral);
        }
        let left = self.deposits[slot].deposited_amount - amount;
        if left == 0 {
            self.deposits[slot] = ObligationCollateral::default();
            self.deposits_count = self.deposits_count.saturating_sub(1);
        } else {
            self.deposits[slot].deposited_amount = left;
        }
        Ok(())
    }

    /// Records `amount` more tokens owed to `reserve` (as `amount × RATE_SCALE`),
    /// opening a slot at rate index `cumulative_borrow_rate_sf` if needed.
    pub fn borrow(&mut self, reserve: Pubkey, amount: u128, cumulative_borrow_rate_sf: u128) -> (r:
        Result<(), LendingError>)
        ensures
            r == old(self).borrow_result(reserve, amount, cumulative_borrow_rate_sf),
            r is Ok ==> *final(self) == old(self).after_borrow(
                reserve,
                amount,
                cumulative_borrow_rate_sf,
            ),
            r is Err ==> *final(self) == old(self).borrow_refused(
                reserve,
                amount,
                cumulative_borrow_rate_sf,
            ),
    {
        if !(amount > 0) {
            return Err(LendingError::InvalidAmount);
        }
        let slot = self.find_or_add_borrow(reserve)?;
        if !self.borrows[slot].is_active() {
            let mut entry = self.borrows[slot];
            entry.init(reserve, cumulative_borrow_rate_sf);
            self.borrows[slot] = entry;
            self.borrows_count = self.borrows_count.saturating_add(1);
        }
        let amount_sf = match amount.checked_mul(RATE_SCALE) {
            Some(v) => v,
            None => {
                return Err(LendingError::MathOverflow);
            },
        };
        let total = match self.borrows[slot].borrowed_amount_sf.checked_add(amount_sf) {
            Some(v) => v,
            None => {
                return Err(LendingError::MathOverflow);
            },
        };
        self.borrows[slot].borrowed_amount_sf = total;
        proof {
            assert(self.borrows =~= old(self).after_borrow(reserve, amount, cumulative_borrow_rate_sf).borrows);
        }
        Ok(())
    }

    /// Pays back `amount` tokens owed to `reserve`; a slot left owing less than
    /// one token (`RATE_SCALE`) is closed.
    pub fn repay(&mut self, reserve: Pubkey, amount: u128) -> (r: Result<(), LendingError>)
        ensures
            r == old(self).repay_result(reserve, amount),
            r is Ok ==> *final(self) == old(self).after_repay(reserve, amount),
            r is Err ==> *final(self) == *old(self),
    {
        if !(amount > 0) {
            return Err(LendingError::InvalidAmount);
        }
        let slot = self.find_borrow(reserve)?;
        let amount_sf = match amount.checked_mul(RATE_SCALE) {
            Some(v) => v,
            None => {
                return Err(LendingError::MathOverflow);
            },
        };
        if !(amount_sf <= self.borrows[slot].borrowed_amount_sf) {
            return Err(LendingError::InvalidAmount);
        }
        let left = self.borrows[slot].borrowed_amount_sf - amount_sf;
        if left < RATE_SCALE {
            self.borrows[slot] = ObligationLiquidity::default();
            self.borrows_count = self.borrows_count.saturating_sub(1);
        } else {
            self.borrows[slot].borrowed_amount_sf = left;
        }
        Ok(())
    }

    /// Brings the debt in `slot_index` current with the reserve's rate index.
    pub fn accrue_interest(&mut self, slot_index: usize, current_cumulative_rate_sf: u128) -> (r:
        Result<(), LendingError>)
        requires
            slot_index < MAX_BORROW_COUNT_IN_RESERVE,
        ensures
            accrue_slot(old(self).borrows@[slot_index as int], current_cumulative_rate_sf) is Ok
                ==> r is Ok,
            accrue_slot(old(self).borrows@[slot_index as int], current_cumulative_rate_sf) matches Err(e)
                ==> r == Err::<(), LendingError>(e),
            r is Ok ==> *final(self) == (Obligation {
                borrows: spec_array_update(
                    old(self).borrows,
                    slot_index as int,
                    accrue_slot(
                        old(self).borrows@[slot_index as int],
                        current_cumulative_rate_sf,
                    )->Ok_0,
                ),
                ..*old(self)
            }),
            r is Err ==> *final(self) == *old(self),
    {
        proof {
            let same = spec_array_update(self.borrows, slot_index as int, self.borrows@[slot_index as int]);
            assert(same@ =~= self.borrows@);
            assert(same =~= self.borrows);
        }
        let slot = self.borrows[slot_index];
        if !slot.is_active() {
            return Ok(());
        }
        if !(current_cumulative_rate_sf >= slot.cumulative_borrow_rate_sf) {
            return Err(LendingError::BorrowRateDecreased);
        }
        if current_cumulative_rate_sf == slot.cumulative_borrow_rate_sf {
            return Ok(());
        }
        let product = match slot.borrowed_amount_sf.checked_mul(current_cumulative_rate_sf) {
            Some(v) => v,
            None => {
                return Err(LendingError::MathOverflow);
            },
        };
        if slot.cumulative_borrow_rate_sf == 0 {
            return Err(LendingError::MathOverflow);
        }
        let mut entry = slot;
        entry.borrowed_amount_sf = product / slot.cumulative_borrow_rate_sf;
        entry.cumulative_borrow_rate_sf = current_cumulative_rate_sf;
        self.borrows[slot_index] = entry;
        Ok(())
    }

    /// The slot holding `reserve`'s collateral, else the first unused slot.
    pub fn find_or_add_deposit(&self, reserve: Pubkey) -> (r: Result<usize, LendingError>)
        ensures
            r == self.deposit_slot_result(reserve),
            r matches Ok(i) ==> i < MAX_DEPOSITS_COUNT_IN_RESERVE && self.deposit_target(reserve)
                == Some(i as int),
    {
        proof {
            self.lemma_targets(reserve);
        }
        match self.find_deposit(reserve) {
            Ok(i) => {
                return Ok(i);
            },
            Err(_) => {},
        }
        let mut i: usize = 0;
        while i < MAX_DEPOSITS_COUNT_IN_RESERVE
            invariant
                i <= MAX_DEPOSITS_COUNT_IN_RESERVE,
                self.find_free_deposit_from(0) == self.find_free_deposit_from(i as int),
                self.find_deposit_from(reserve, 0) is None,
            decreases MAX_DEPOSITS_COUNT_IN_RESERVE - i,
        {
            if !self.deposits[i].is_active() {
                return Ok(i);
            }
            i = i + 1;
        }
        Err(LendingError::ObligationDepositsFull)
    }

    /// The slot holding `reserve`'s debt, else the first unused slot.
    pub fn find_or_add_borrow(&self, reserve: Pubkey) -> (r: Result<usize, LendingError>)
        ensures
            r == self.borrow_slot_result(reserve),
            r matches Ok(i) ==> i < MAX_BORROW_COUNT_IN_RESERVE && self.borrow_target(reserve)
                == Some(i as int),
    {
        proof {
            self.lemma_targets(reserve);
        }
        match self.find_borrow(reserve) {
            Ok(i) => {
                return Ok(i);
            },
            Err(_) => {},
        }
        let mut i: usize = 0;
        while i < MAX_BORROW_COUNT_IN_RESERVE
            invariant
                i <= MAX_BORROW_COUNT_IN_RESERVE,
                self.find_free_borrow_from(0) == self.find_free_borrow_from(i as int),
                self.find_borrow_from(reserve, 0) is None,
            decreases MAX_BORROW_COUNT_IN_RESERVE - i,
        {
            if !self.borrows[i].is_active() {
                return Ok(i);
            }
            i = i + 1;
        }
        Err(LendingError::ObligationBorrowsFull)
    }

    /// The slot holding `reserve`'s collateral.
    pub fn find_deposit(&self, reserve: Pubkey) -> (r: Result<usize, LendingError>)
        ensures
            r == self.find_deposit_result(reserve),
            r matches Ok(i) ==> i < MAX_DEPOSITS_COUNT_IN_RESERVE && self.find_deposit_from(
                reserve,
                0,
            ) == Some(i as int),
    {
        proof {
            self.lemma_targets(reserve);
        }
        let mut i: usize = 0;
        while i < MAX_DEPOSITS_COUNT_IN_RESERVE
            invariant
                i <= MAX_DEPOSITS_COUNT_IN_RESERVE,
                self.find_deposit_from(reserve, 0) == self.find_deposit_from(reserve, i as int),
            decreases MAX_DEPOSITS_COUNT_IN_RESERVE - i,
        {
            if self.deposits[i].deposit_reserve == reserve {
                return Ok(i);
            }
            i = i + 1;
        }
        Err(LendingError::DepositNotFound)
    }

    /// The slot holding `reserve`'s debt.
    pub fn find_borrow(&self, reserve: Pubkey) -> (r: Result<usize, LendingError>)
        ensures
            r == self.find_borrow_result(reserve),
            r matches Ok(i) ==> i < MAX_BORROW_COUNT_IN_RESERVE && self.find_borrow_from(
                reserve,
                0,
            ) == Some(i as int),
    {
        proof {
            self.lemma_targets(reserve);
        }
        let mut i: usize = 0;
        while i < MAX_BORROW_COUNT_IN_RESERVE
            invariant
                i <= MAX_BORROW_COUNT_IN_RESERVE,
                self.find_borrow_from(reserve, 0) == self.find_borrow_from(reserve, i as int),
            decreases MAX_BORROW_COUNT_IN_RESERVE - i,
        {
            if self.borrows[i].borrow_reserve == reserve {
                return Ok(i);
            }
            i = i + 1;
        }
        Err(LendingError::BorrowNotFound)
    }

    pub fn active_deposits(&self) -> (n: u8)
        ensures
            n == self.deposits_count,
    {
        self.deposits_count
    }

    pub fn active_borrow(&self) -> (n: u8)
        ensures
            n == self.borrows_count,
    {
        self.borrows_count
    }
}


impl Obligation {
    /// What the collateral search from `i` finds: a matching slot at or after `i`,
    /// with no match between `i` and it.
    pub proof fn lemma_find_deposit_from(self, key: Pubkey, i: int)
        requires
            0 <= i <= 8,
        ensures
            match self.find_deposit_from(key, i) {
                Some(j) => i <= j < 8 && self.deposits@[j].deposit_reserve == key && forall|k: int|
                    i <= k < j ==> #[trigger] self.deposits@[k].deposit_reserve != key,
                None => forall|k: int| i <= k < 8 ==> #[trigger] self.deposits@[k].deposit_reserve != key,
            },
        decreases 8 - i,
    {
        if i < 8 {
            self.lemma_find_deposit_from(key, i + 1);
        }
    }

    /// What the free collateral-slot search from `i` finds.
    pub proof fn lemma_find_free_deposit_from(self, i: int)
        requires
            0 <= i <= 8,
        ensures
            match self.find_free_deposit_from(i) {
                Some(j) => i <= j < 8 && !self.deposits@[j].active() && forall|k: int|
                    i <= k < j ==> #[trigger] self.deposits@[k].active(),
                None => forall|k: int| i <= k < 8 ==> #[trigger] self.deposits@[k].active(),
            },
        decreases 8 - i,
    {
        if i < 8 {
            self.lemma_find_free_deposit_from(i + 1);
        }
    }

    /// What the debt search from `i` finds.
    pub proof fn lemma_find_borrow_from(self, key: Pubkey, i: int)
        requires
            0 <= i <= 8,
        ensures
            match self.find_borrow_from(key, i) {
                Some(j) => i <= j < 8 && self.borrows@[j].borrow_reserve == key && forall|k: int|
                    i <= k < j ==> #[trigger] self.borrows@[k].borrow_reserve != key,
                None => forall|k: int| i <= k < 8 ==> #[trigger] self.borrows@[k].borrow_reserve != key,
            },
        decreases 8 - i,
    {
        if i < 8 {
            self.lemma_find_borrow_from(key, i + 1);
        }
    }

    /// What the free debt-slot search from `i` finds.
    pub proof fn lemma_find_free_borrow_from(self, i: int)
        requires
            0 <= i <= 8,
        ensures
            match self.find_free_borrow_from(i) {
                Some(j) => i <= j < 8 && !self.borrows@[j].active() && forall|k: int|
                    i <= k < j ==> #[trigger] self.borrows@[k].active(),
                None => forall|k: int| i <= k < 8 ==> #[trigger] self.borrows@[k].active(),
            },
        decreases 8 - i,
    {
        if i < 8 {
            self.lemma_find_free_borrow_from(i + 1);
        }
    }

    /// The slot chosen for a deposit is a real slot.
    pub proof fn lemma_targets(self, key: Pubkey)
        ensures
            self.deposit_target(key) matches Some(i) ==> 0 <= i < 8,
            self.borrow_target(key) matches Some(i) ==> 0 <= i < 8,
            self.find_deposit_from(key, 0) matches Some(i) ==> 0 <= i < 8
                && self.deposits@[i].deposit_reserve == key,
            self.find_borrow_from(key, 0) matches Some(i) ==> 0 <= i < 8
                && self.borrows@[i].borrow_reserve == key,
    {
        self.lemma_find_deposit_from(key, 0);
        self.lemma_find_free_deposit_from(0);
        self.lemma_find_borrow_from(key, 0);
        self.lemma_find_free_borrow_from(0);
    }
}


/// `x` capped at `u128::MAX`.
pub open spec fn saturate(x: int) -> int {
    if x > u128::MAX {
        u128::MAX as int
    } else {
        x
    }
}

/// The health factor for collateral value `c` and debt value `b` (`b > 0`),
/// scaled by `RATE_SCALE`: `c × RATE_SCALE / b`; where `c × RATE_SCALE`
/// does not fit in `u128` it is `(c / b) × RATE_SCALE`, capped at `u128::MAX`.
pub open spec fn health_factor_of(c: int, b: int) -> int {
    if c * RATE_SCALE <= u128::MAX {
        c * RATE_SCALE / b
    } else {
        saturate(c / b * RATE_SCALE)
    }
}

impl Obligation {
    /// Sum of the market values of the active collateral slots among the first `n`.
    pub open spec fn collateral_value_upto(self, n: int) -> int
        decreases n,
    {
        if n <= 0 {
            0
        } else {
            self.collateral_value_upto(n - 1) + if self.deposits@[n - 1].active() {
                self.deposits@[n - 1].market_value_sf as int
            } else {
                0
            }
        }
    }

    /// Sum of the market values of the active debt slots among the first `n`.
    pub open spec fn borrow_value_upto(self, n: int) -> int
        decreases n,
    {
        if n <= 0 {
            0
        } else {
            self.borrow_value_upto(n - 1) + if self.borrows@[n - 1].active() {
                self.borrows@[n - 1].market_value_sf as int
            } else {
                0
            }
        }
    }

    /// Number of leading collateral slots that count: `deposits_count`, at most 8.
    pub open spec fn counted_deposits(self) -> int {
        if self.deposits_count < 8 {
            self.deposits_count as int
        } else {
            8
        }
    }

    /// Number of leading debt slots that count: `borrows_count`, at most 8.
    pub open spec fn counted_borrows(self) -> int {
        if self.borrows_count < 8 {
            self.borrows_count as int
        } else {
            8
        }
    }

    /// Total collateral value (USD × `RATE_SCALE`, already weighted by the
    /// liquidation thresholds) over the counted slots.
    pub open spec fn collateral_value(self) -> int {
        self.collateral_value_upto(self.counted_deposits())
    }

    /// Total debt value (USD × `RATE_SCALE`) over the counted slots.
    pub open spec fn borrow_value(self) -> int {
        self.borrow_value_upto(self.counted_borrows())
    }

    /// Healthy: no debt value, or the collateral value covers it
    /// (both sums capped at `u128::MAX`).
    pub open spec fn healthy(self) -> bool {
        saturate(self.borrow_value()) == 0 || saturate(self.collateral_value()) >= saturate(
            self.borrow_value(),
        )
    }

    /// The health factor, or `None` without debt value.
    pub open spec fn health_factor_value(self) -> Option<u128> {
        if saturate(self.borrow_value()) == 0 {
            None
        } else {
            Some(
                health_factor_of(
                    saturate(self.collateral_value()),
                    saturate(self.borrow_value()),
                ) as u128,
            )
        }
    }

    pub proof fn lemma_values_monotone(self, i: int, j: int)
        requires
            0 <= i <= j,
        ensures
            0 <= self.collateral_value_upto(i) <= self.collateral_value_upto(j),
            0 <= self.borrow_value_upto(i) <= self.borrow_value_upto(j),
        decreases j - i,
    {
        if i < j {
            self.lemma_values_monotone(i, j - 1);
        } else {
            self.lemma_values_nonneg(i);
        }
    }

    pub proof fn lemma_values_nonneg(self, n: int)
        ensures
            self.collateral_value_upto(n) >= 0,
            self.borrow_value_upto(n) >= 0,
        decreases n,
    {
        if n > 0 {
            self.lemma_values_nonneg(n - 1);
        }
    }

    /// Total collateral value over the counted slots, or `None` where it exceeds `u128`.
    pub fn collateral_value_sf(&self) -> (r: Option<u128>)
        ensures
            self.collateral_value() <= u128::MAX ==> r == Some(self.collateral_value() as u128),
            self.collateral_value() > u128::MAX ==> r is None,
    {
        let n: usize = if self.deposits_count < 8 {
            self.deposits_count as usize
        } else {
            8
        };
        let mut total: u128 = 0;
        let mut i: usize = 0;
        while i < n
            invariant
                i <= n,
                n == self.counted_deposits(),
                n <= 8,
                total == self.collateral_value_upto(i as int),
            decreases n - i,
        {
            if self.deposits[i].is_active() {
                match total.checked_add(self.deposits[i].market_value_sf) {
                    Some(v) => {
                        total = v;
                    },
                    None => {
                        proof {
                            self.lemma_values_monotone(i + 1, n as int);
                        }
                        return None;
                    },
                }
            }
            i = i + 1;
        }
        Some(total)
    }

    /// Total debt value over the counted slots, or `None` where it exceeds `u128`.
    pub fn borrow_value_sf(&self) -> (r: Option<u128>)
        ensures
            self.borrow_value() <= u128::MAX ==> r == Some(self.borrow_value() as u128),
            self.borrow_value() > u128::MAX ==> r is None,
    {
        let n: usize = if self.borrows_count < 8 {
            self.borrows_count as usize
        } else {
            8
        };
        let mut total: u128 = 0;
        let mut i: usize = 0;
        while i < n
            invariant
                i <= n,
                n == self.counted_borrows(),
                n <= 8,
                total == self.borrow_value_upto(i as int),
            decreases n - i,
        {
            if self.borrows[i].is_active() {
                match total.checked_add(self.borrows[i].market_value_sf) {
                    Some(v) => {
                        total = v;
                    },
                    None => {
                        proof {
                            self.lemma_values_monotone(i + 1, n as int);
                        }
                        return None;
                    },
                }
            }
            i = i + 1;
        }
        Some(total)
    }

    /// Whether the collateral value covers the debt value (or there is no debt value).
    pub fn is_healthy(&self) -> (b: bool)
        ensures
            b == self.healthy(),
    {
        proof {
            self.lemma_values_nonneg(self.counted_deposits());
            self.lemma_values_nonneg(self.counted_borrows());
        }
        let c: u128 = match self.collateral_value_sf() {
            Some(v) => v,
            None => u128::MAX,
        };
        let d: u128 = match self.borrow_value_sf() {
            Some(v) => v,
            None => u128::MAX,
        };
        d == 0 || c >= d
    }

    /// Collateral value over debt value, scaled by `RATE_SCALE`; `None` without debt value.
    pub fn health_factor(&self) -> (r: Option<u128>)
        ensures
            r == self.health_factor_value(),
    {
        proof {
            self.lemma_values_nonneg(self.counted_deposits());
            self.lemma_values_nonneg(self.counted_borrows());
        }
        let c: u128 = match self.collateral_value_sf() {
            Some(v) => v,
            None => u128::MAX,
        };
        let d: u128 = match self.borrow_value_sf() {
            Some(v) => v,
            None => u128::MAX,
        };
        if d == 0 {
            return None;
        }
        match c.checked_mul(RATE_SCALE) {
            Some(scaled) => Some(scaled / d),
            None => match (c / d).checked_mul(RATE_SCALE) {
                Some(v) => Some(v),
                None => Some(u128::MAX),
            },
        }
    }
}


impl Obligation {
    /// Number of active collateral slots among the first `n`.
    pub open spec fn active_deposits_upto(self, n: int) -> int
        decreases n,
    {
        if n <= 0 {
            0
        } else {
            self.active_deposits_upto(n - 1) + if self.deposits@[n - 1].active() {
                1int
            } else {
                0
            }
        }
    }

    /// Number of active debt slots among the first `n`.
    pub open spec fn active_borrows_upto(self, n: int) -> int
        decreases n,
    {
        if n <= 0 {
            0
        } else {
            self.active_borrows_upto(n - 1) + if self.borrows@[n - 1].active() {
                1int
            } else {
                0
            }
        }
    }

    /// The counts match the active slots.
    pub open spec fn counts_consistent(self) -> bool {
        &&& self.deposits_count == self.active_deposits_upto(8)
        &&& self.borrows_count == self.active_borrows_upto(8)
    }

    /// Whether the counts match the active slots.
    pub fn counts_are_consistent(&self) -> (b: bool)
        ensures
            b == self.counts_consistent(),
    {
        let mut deposits: u8 = 0;
        let mut borrows: u8 = 0;
        let mut i: usize = 0;
        while i < 8
            invariant
                i <= 8,
                deposits == self.active_deposits_upto(i as int),
                borrows == self.active_borrows_upto(i as int),
                deposits <= i,
                borrows <= i,
            decreases 8 - i,
        {
            if self.deposits[i].is_active() {
                deposits = deposits + 1;
            }
            if self.borrows[i].is_active() {
                borrows = borrows + 1;
            }
            i = i + 1;
        }
        deposits == self.deposits_count && borrows == self.borrows_count
    }
}


impl Obligation {
    /// The collateral search depends only on the slots' reserves.
    pub proof fn lemma_find_deposit_same_keys(a: Obligation, b: Obligation, key: Pubkey, i: int)
        requires
            forall|j: int| 0 <= j < 8 ==> #[trigger] a.deposits@[j].deposit_reserve == b.deposits@[j].deposit_reserve,
        ensures
            a.find_deposit_from(key, i) == b.find_deposit_from(key, i),
            a.find_free_deposit_from(i) == b.find_free_deposit_from(i),
        decreases 8 - i,
    {
        if 0 <= i < 8 {
            Obligation::lemma_find_deposit_same_keys(a, b, key, i + 1);
        }
    }

    /// The debt search depends only on the slots' reserves.
    pub proof fn lemma_find_borrow_same_keys(a: Obligation, b: Obligation, key: Pubkey, i: int)
        requires
            forall|j: int| 0 <= j < 8 ==> #[trigger] a.borrows@[j].borrow_reserve == b.borrows@[j].borrow_reserve,
        ensures
            a.find_borrow_from(key, i) == b.find_borrow_from(key, i),
            a.find_free_borrow_from(i) == b.find_free_borrow_from(i),
        decreases 8 - i,
    {
        if 0 <= i < 8 {
            Obligation::lemma_find_borrow_same_keys(a, b, key, i + 1);
        }
    }
}


impl Obligation {
    pub proof fn lemma_active_counts_bounded(self, n: int)
        requires
            0 <= n,
        ensures
            0 <= self.active_deposits_upto(n) <= n,
            0 <= self.active_borrows_upto(n) <= n,
        decreases n,
    {
        if n > 0 {
            self.lemma_active_counts_bounded(n - 1);
        }
    }
}

} // verus!
