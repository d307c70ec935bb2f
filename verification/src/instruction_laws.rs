//! What the instructions promise across their inputs: a paused market refuses
//! every change but repayment, loans stay covered, collateral leaves only
//! healthy positions, and liquidation is bounded.
use vstd::prelude::*;

use crate::constants::{BPS_SCALER, MAX_LIQUIDATION_CLOSE_FACTOR_PCT, RATE_SCALE};
use crate::error::LendingError;
use crate::instructions::{
    accrue_existing, accrue_owed, add_reserve_result, borrow_core_obligation, borrow_result,
    close_factor_cap, deposit_collateral_result, deposit_result, liquidate_result,
    liquidated_obligation, repay_obligation, repay_result, withdraw_collateral_obligation,
    withdraw_collateral_result, withdraw_result, execute_private_liquidation_result,
    lookup_reserve_from, refresh_borrows_from, refresh_deposits_from, refresh_obligation_result,
    refreshed_borrow_slot, refreshed_deposit_slot, with_borrow_slot, with_deposit_slot,
    private_borrow_result, private_deposit_collateral_result, AddReserveArgs,
    liquidation_result, whole_tokens_owed,
};
use crate::laws::{law_accrual_once_per_slot, law_redeem_after_deposit_never_gains};
use crate::lending_market::LendingMarket;
use crate::obligation::{accrue_slot, Obligation, ObligationCollateral, ObligationLiquidity};
use crate::obligation_laws::{
    law_accrue_keeps_wf, law_borrow_keeps_wf, law_deposit_keeps_wf,
    law_healthy_iff_factor_at_least_one, law_repay_keeps_wf, law_withdraw_keeps_wf,
};
use crate::private_obligation::PrivateObligation;
use crate::pubkey::Pubkey;
use crate::reserve::Reserve;

verus! {

/// A paused market refuses deposits, redemptions, collateral moves, borrows,
/// liquidations and new reserves, all with `InvalidConfig`; the private
/// deposit and borrow are refused too (after their own argument checks).
pub proof fn law_paused_market_refuses(
    market: LendingMarket,
    market_key: Pubkey,
    reserve: Reserve,
    other_reserve: Reserve,
    obligation: Obligation,
    private_obligation: PrivateObligation,
    depositor: Pubkey,
    reserve_key: Pubkey,
    other_key: Pubkey,
    current_slot: u64,
    amount: u64,
    args: AddReserveArgs,
)
    requires
        market.emergency_pause,
    ensures
        private_deposit_collateral_result(
            market,
            reserve,
            obligation,
            private_obligation,
            depositor,
            reserve_key,
            amount,
        ) is Err,
        private_borrow_result(
            market,
            reserve,
            obligation,
            private_obligation,
            reserve_key,
            current_slot,
            amount,
        ) is Err,
        execute_private_liquidation_result(
            market,
            market_key,
            private_obligation,
            reserve,
            other_reserve,
            obligation,
            reserve_key,
            other_key,
            current_slot,
            amount,
        ) == Err::<(u64, u64), LendingError>(LendingError::InvalidConfig),
        deposit_result(market, reserve, current_slot, amount) == Err::<u64, LendingError>(
            LendingError::InvalidConfig,
        ),
        withdraw_result(market, reserve, current_slot, amount) == Err::<u64, LendingError>(
            LendingError::InvalidConfig,
        ),
        deposit_collateral_result(market, reserve, obligation, reserve_key, amount) == Err::<
            (),
            LendingError,
        >(LendingError::InvalidConfig),
        withdraw_collateral_result(market, obligation, reserve_key, current_slot, amount) == Err::<
            (),
            LendingError,
        >(LendingError::InvalidConfig),
        borrow_result(market, reserve, obligation, reserve_key, current_slot, amount) == Err::<
            (),
            LendingError,
        >(LendingError::InvalidConfig),
        liquidate_result(
            market,
            market_key,
            reserve,
            other_reserve,
            obligation,
            reserve_key,
            other_key,
            current_slot,
            amount,
        ) == Err::<(u64, u64), LendingError>(LendingError::InvalidConfig),
        add_reserve_result(market, reserve, args) == Err::<(), LendingError>(
            LendingError::InvalidConfig,
        ),
{
}

/// A successful borrow was made by an obligation refreshed in this slot,
/// against a priced reserve, and leaves the obligation's collateral value
/// covering its recorded debt value plus the value of the new loan.
pub proof fn law_borrow_stays_covered(
    market: LendingMarket,
    reserve: Reserve,
    obligation: Obligation,
    reserve_key: Pubkey,
    current_slot: u64,
    amount: u64,
)
    requires
        borrow_result(market, reserve, obligation, reserve_key, current_slot, amount) is Ok,
    ensures
        obligation.last_update.slot == current_slot,
        reserve.liquidity.market_price_sf > 0,
        ({
            let o2 = borrow_core_obligation(reserve, obligation, reserve_key, current_slot, amount);
            o2.collateral_value() >= o2.borrow_value() + amount * reserve.liquidity.market_price_sf
        }),
{
}

/// A successful collateral withdrawal was made by an obligation refreshed in
/// this slot and leaves it healthy.
pub proof fn law_withdraw_collateral_leaves_healthy(
    market: LendingMarket,
    obligation: Obligation,
    reserve_key: Pubkey,
    current_slot: u64,
    amount: u64,
)
    requires
        withdraw_collateral_result(market, obligation, reserve_key, current_slot, amount) is Ok,
    ensures
        obligation.last_update.slot == current_slot,
        withdraw_collateral_obligation(obligation, reserve_key, amount).healthy(),
{
    law_healthy_iff_factor_at_least_one(
        withdraw_collateral_obligation(obligation, reserve_key, amount),
    );
}

/// A successful liquidation hit an unhealthy obligation refreshed in this
/// slot; it repaid between 1 and `repay_amount` tokens, no more than the close
/// factor allows of the debt brought current (half of it, where that cap fits
/// in a `u64`), and seized between 1 cToken and what was deposited.
pub proof fn law_liquidation_bounded(
    market: LendingMarket,
    market_key: Pubkey,
    repay_reserve: Reserve,
    withdraw_reserve: Reserve,
    obligation: Obligation,
    repay_key: Pubkey,
    withdraw_key: Pubkey,
    current_slot: u64,
    repay_amount: u64,
)
    requires
        liquidate_result(
            market,
            market_key,
            repay_reserve,
            withdraw_reserve,
            obligation,
            repay_key,
            withdraw_key,
            current_slot,
            repay_amount,
        ) is Ok,
    ensures
        ({
            let (actual, seize) = liquidate_result(
                market,
                market_key,
                repay_reserve,
                withdraw_reserve,
                obligation,
                repay_key,
                withdraw_key,
                current_slot,
                repay_amount,
            )->Ok_0;
            let rate = repay_reserve.accrued_at(current_slot).liquidity.cumulative_borrow_rate_sf;
            let o1 = accrue_owed(obligation, repay_key, rate)->Ok_0;
            let debt_sf = o1.borrows@[o1.find_borrow_from(repay_key, 0)->Some_0].borrowed_amount_sf;
            &&& !market.emergency_pause
            &&& !obligation.healthy()
            &&& obligation.last_update.slot == current_slot
            &&& 0 < actual <= repay_amount
            &&& actual <= close_factor_cap(debt_sf)
            &&& (debt_sf / RATE_SCALE) * MAX_LIQUIDATION_CLOSE_FACTOR_PCT / 100 <= u64::MAX
                ==> actual * 2 <= debt_sf / RATE_SCALE
            &&& obligation.find_deposit_from(withdraw_key, 0) matches Some(j)
            &&& 0 < seize <= obligation.deposits@[j].deposited_amount
        }),
{
    let rate = repay_reserve.accrued_at(current_slot).liquidity.cumulative_borrow_rate_sf;
    let o1 = accrue_owed(obligation, repay_key, rate)->Ok_0;
    assert forall|j: int| 0 <= j < 8 implies #[trigger] o1.deposits@[j].deposit_reserve
        == obligation.deposits@[j].deposit_reserve by {}
    Obligation::lemma_find_deposit_same_keys(o1, obligation, withdraw_key, 0);
    obligation.lemma_targets(withdraw_key);
}

/// Bringing the debt owed to `key` current keeps the obligation's invariant.
pub proof fn law_accrue_existing_keeps_wf(o: Obligation, key: Pubkey, rate: u128)
    requires
        o.wf(),
        accrue_existing(o, key, rate) is Ok,
    ensures
        accrue_existing(o, key, rate)->Ok_0.wf(),
{
    o.lemma_targets(key);
    if let Some(i) = o.find_borrow_from(key, 0) {
        law_accrue_keeps_wf(o, i, rate);
    }
}

/// Locking collateral of a real reserve keeps the obligation's invariant.
pub proof fn law_deposit_collateral_keeps_wf(
    market: LendingMarket,
    reserve: Reserve,
    obligation: Obligation,
    reserve_key: Pubkey,
    amount: u64,
)
    requires
        obligation.wf(),
        !reserve_key.is_zero(),
        deposit_collateral_result(market, reserve, obligation, reserve_key, amount) is Ok,
    ensures
        obligation.after_deposit(reserve_key, amount).wf(),
{
    law_deposit_keeps_wf(obligation, reserve_key, amount);
}

/// Borrowing from a real reserve keeps the obligation's invariant.
pub proof fn law_borrow_instruction_keeps_wf(
    market: LendingMarket,
    reserve: Reserve,
    obligation: Obligation,
    reserve_key: Pubkey,
    current_slot: u64,
    amount: u64,
)
    requires
        obligation.wf(),
        !reserve_key.is_zero(),
        borrow_result(market, reserve, obligation, reserve_key, current_slot, amount) is Ok,
    ensures
        borrow_core_obligation(reserve, obligation, reserve_key, current_slot, amount).wf(),
{
    let rate = reserve.accrued_at(current_slot).liquidity.cumulative_borrow_rate_sf;
    law_accrue_existing_keeps_wf(obligation, reserve_key, rate);
    let o1 = accrue_existing(obligation, reserve_key, rate)->Ok_0;
    law_borrow_keeps_wf(o1, reserve_key, amount as u128, rate);
}

/// Repaying keeps the obligation's invariant.
pub proof fn law_repay_instruction_keeps_wf(
    reserve: Reserve,
    obligation: Obligation,
    reserve_key: Pubkey,
    current_slot: u64,
    amount: u64,
)
    requires
        obligation.wf(),
        repay_result(reserve, obligation, reserve_key, current_slot, amount) is Ok,
    ensures
        repay_obligation(reserve, obligation, reserve_key, current_slot, amount).wf(),
{
    let rate = reserve.accrued_at(current_slot).liquidity.cumulative_borrow_rate_sf;
    law_accrue_existing_keeps_wf(obligation, reserve_key, rate);
    let o1 = accrue_owed(obligation, reserve_key, rate)->Ok_0;
    law_repay_keeps_wf(o1, reserve_key, amount as u128);
}

/// Unlocking collateral keeps the obligation's invariant.
pub proof fn law_withdraw_collateral_keeps_wf(
    market: LendingMarket,
    obligation: Obligation,
    reserve_key: Pubkey,
    current_slot: u64,
    amount: u64,
)
    requires
        obligation.wf(),
        withdraw_collateral_result(market, obligation, reserve_key, current_slot, amount) is Ok,
    ensures
        withdraw_collateral_obligation(obligation, reserve_key, amount).wf(),
{
    crate::pubkey::lemma_zero_key();
    obligation.lemma_targets(reserve_key);
    let i = obligation.find_deposit_from(reserve_key, 0)->Some_0;
    let slot = obligation.deposits@[i];
    assert(slot.active());
    let o1 = Obligation {
        deposits: vstd::array::spec_array_update(
            obligation.deposits,
            i,
            ObligationCollateral {
                market_value_sf: crate::instructions::scaled_market_value(slot, amount) as u128,
                ..slot
            },
        ),
        ..obligation
    };
    assert forall|k: int| 0 <= k < 8 && k != i implies #[trigger] o1.deposits@[k]
        == obligation.deposits@[k] by {}
    crate::obligation_laws::lemma_deposit_count_update(obligation, o1, i, 8);
    crate::obligation_laws::lemma_counts_other_side(obligation, o1, 8);
    assert forall|j: int| 0 <= j < 8 implies #[trigger] o1.deposits@[j].deposit_reserve
        == obligation.deposits@[j].deposit_reserve by {}
    Obligation::lemma_find_deposit_same_keys(o1, obligation, reserve_key, 0);
    law_withdraw_keeps_wf(o1, reserve_key, amount);
}

/// A liquidation keeps the obligation's invariant.
pub proof fn law_liquidation_keeps_wf(
    market: LendingMarket,
    market_key: Pubkey,
    repay_reserve: Reserve,
    withdraw_reserve: Reserve,
    obligation: Obligation,
    repay_key: Pubkey,
    withdraw_key: Pubkey,
    current_slot: u64,
    repay_amount: u64,
)
    requires
        obligation.wf(),
        liquidate_result(
            market,
            market_key,
            repay_reserve,
            withdraw_reserve,
            obligation,
            repay_key,
            withdraw_key,
            current_slot,
            repay_amount,
        ) is Ok,
    ensures
        ({
            let (actual, seize) = liquidate_result(
                market,
                market_key,
                repay_reserve,
                withdraw_reserve,
                obligation,
                repay_key,
                withdraw_key,
                current_slot,
                repay_amount,
            )->Ok_0;
            liquidated_obligation(
                obligation,
                repay_reserve.accrued_at(current_slot),
                repay_key,
                withdraw_key,
                actual,
                seize,
            ).wf()
        }),
{
    let (actual, seize) = liquidate_result(
        market,
        market_key,
        repay_reserve,
        withdraw_reserve,
        obligation,
        repay_key,
        withdraw_key,
        current_slot,
        repay_amount,
    )->Ok_0;
    let rate = repay_reserve.accrued_at(current_slot).liquidity.cumulative_borrow_rate_sf;
    law_accrue_existing_keeps_wf(obligation, repay_key, rate);
    let o1 = accrue_owed(obligation, repay_key, rate)->Ok_0;
    law_repay_keeps_wf(o1, repay_key, actual as u128);
    law_withdraw_keeps_wf(o1.after_repay(repay_key, actual as u128), withdraw_key, seize);
}

/// Repricing debt slots `i..n` keeps the obligation's invariant.
pub proof fn lemma_refresh_borrows_keeps_wf(o: Obligation, accounts: Seq<(Pubkey, Reserve)>, i: int, n: int)
    requires
        o.wf(),
        refresh_borrows_from(o, accounts, i, n) is Ok,
    ensures
        refresh_borrows_from(o, accounts, i, n)->Ok_0.wf(),
    decreases n - i,
{
    if !(i < 0 || i >= n || i >= 8) {
        let slot = o.borrows@[i];
        let s = refreshed_borrow_slot(slot, accounts)->Ok_0;
        let o2 = with_borrow_slot(o, i, s);
        if slot.active() && lookup_reserve_from(accounts, slot.borrow_reserve, 0) is Some {
            let res = lookup_reserve_from(accounts, slot.borrow_reserve, 0)->Some_0;
            if res.liquidity.supply_ok() && res.liquidity.market_price_sf != 0 {
                law_accrue_keeps_wf(o, i, res.liquidity.cumulative_borrow_rate_sf);
            }
        }
        assert forall|k: int| 0 <= k < 8 && k != i implies #[trigger] o2.borrows@[k] == o.borrows@[k] by {}
        crate::obligation_laws::lemma_borrow_count_update(o, o2, i, 8);
        crate::obligation_laws::lemma_counts_other_side(o, o2, 8);
        lemma_refresh_borrows_keeps_wf(o2, accounts, i + 1, n);
    }
}

/// Repricing collateral slots `i..n` keeps the obligation's invariant.
pub proof fn lemma_refresh_deposits_keeps_wf(o: Obligation, accounts: Seq<(Pubkey, Reserve)>, i: int, n: int)
    requires
        o.wf(),
        refresh_deposits_from(o, accounts, i, n) is Ok,
    ensures
        refresh_deposits_from(o, accounts, i, n)->Ok_0.wf(),
    decreases n - i,
{
    if !(i < 0 || i >= n || i >= 8) {
        let s = refreshed_deposit_slot(o.deposits@[i], accounts)->Ok_0;
        let o2 = with_deposit_slot(o, i, s);
        assert forall|k: int| 0 <= k < 8 && k != i implies #[trigger] o2.deposits@[k] == o.deposits@[k] by {}
        crate::obligation_laws::lemma_deposit_count_update(o, o2, i, 8);
        crate::obligation_laws::lemma_counts_other_side(o, o2, 8);
        lemma_refresh_deposits_keeps_wf(o2, accounts, i + 1, n);
    }
}

/// Refreshing an obligation keeps its invariant: only debts (which never
/// shrink) and market values change, and the refresh stamp.
pub proof fn law_refresh_obligation_keeps_wf(
    o: Obligation,
    accounts: Seq<(Pubkey, Reserve)>,
    current_slot: u64,
    current_timestamp: i64,
)
    requires
        o.wf(),
        refresh_obligation_result(o, accounts, current_slot, current_timestamp) is Ok,
    ensures
        refresh_obligation_result(o, accounts, current_slot, current_timestamp)->Ok_0.wf(),
        refresh_obligation_result(o, accounts, current_slot, current_timestamp)->Ok_0.last_update.slot
            == current_slot,
{
    lemma_refresh_borrows_keeps_wf(o, accounts, 0, o.borrows_count as int);
    let o1 = refresh_borrows_from(o, accounts, 0, o.borrows_count as int)->Ok_0;
    lemma_refresh_deposits_keeps_wf(o1, accounts, 0, o.deposits_count as int);
    let o2 = refresh_deposits_from(o1, accounts, 0, o.deposits_count as int)->Ok_0;
    let o3 = Obligation {
        last_update: crate::last_update::LastUpdate { slot: current_slot, timestamp: current_timestamp },
        ..o2
    };
    crate::obligation_laws::lemma_counts_other_side(o2, o3, 8);
}

/// Withdrawing, in the same slot, the cTokens a deposit just minted pays out
/// no more than was deposited. Left out, as for the reserve itself: a pool
/// whose tokens are not all backed by cTokens, and a pool whose total would
/// leave `u128`.
pub proof fn law_withdraw_after_deposit_never_gains(
    market: LendingMarket,
    reserve: Reserve,
    current_slot: u64,
    amount: u64,
)
    requires
        deposit_result(market, reserve, current_slot, amount) is Ok,
        reserve.accrued_at(current_slot).collateral.mint_total_supply == 0
            ==> reserve.accrued_at(current_slot).liquidity.supply_value() == 0,
        reserve.accrued_at(current_slot).after_deposit(
            amount,
            deposit_result(market, reserve, current_slot, amount)->Ok_0,
        ).liquidity.supply_ok(),
    ensures
        ({
            let minted = deposit_result(market, reserve, current_slot, amount)->Ok_0;
            let after = reserve.accrued_at(current_slot).after_deposit(amount, minted);
            withdraw_result(market, after, current_slot, minted) matches Ok(paid) ==> paid
                <= amount
        }),
{
    let r = reserve.accrued_at(current_slot);
    law_accrual_once_per_slot(reserve, current_slot);
    law_redeem_after_deposit_never_gains(r, amount);
    let minted = r.deposit_result(amount)->Ok_0;
    let after = r.after_deposit(amount, minted);
    assert(after.slots_since(current_slot) == 0);
    assert(after.accrued_at(current_slot) == after);
}

/// A liquidation pays the liquidator in collateral cTokens worth the bonus
/// value of what was repaid, converted at the collateral reserve's exchange
/// rate (cToken supply over total supply): with `owed` the underlying tokens
/// due (`actual` × repay price × (10_000 + bonus) / 10_000 / collateral
/// price), the cTokens seized redeem for no more than `owed`, and are the most
/// that do, unless capped by what the obligation has deposited. Stated where
/// the collateral pool is non-empty on both sides.
pub proof fn law_liquidation_seizes_owed_worth(
    o: Obligation,
    repay_reserve: Reserve,
    withdraw_reserve: Reserve,
    repay_key: Pubkey,
    withdraw_key: Pubkey,
    current_slot: u64,
    repay_amount: u64,
    needs_unhealthy: bool,
)
    ensures
        liquidation_result(
            o,
            repay_reserve,
            withdraw_reserve,
            repay_key,
            withdraw_key,
            current_slot,
            repay_amount,
            needs_unhealthy,
        ) matches Ok((actual, seize)) ==> ({
            let owed = actual * repay_reserve.liquidity.market_price_sf * (BPS_SCALER
                + withdraw_reserve.config.liquidation_bonus_pct) / (BPS_SCALER as int)
                / (withdraw_reserve.liquidity.market_price_sf as int);
            let ctoken_supply = withdraw_reserve.collateral.mint_total_supply as int;
            let total = withdraw_reserve.liquidity.supply_value();
            let deposited = o.deposits@[o.find_deposit_from(withdraw_key, 0)->Some_0].deposited_amount;
            0 < ctoken_supply && 0 < total <= u128::MAX ==> {
                &&& seize <= deposited
                &&& seize * total <= owed * ctoken_supply
                &&& (seize == deposited || owed * ctoken_supply < (seize + 1) * total)
            }
        }),
{
    let res = liquidation_result(
        o,
        repay_reserve,
        withdraw_reserve,
        repay_key,
        withdraw_key,
        current_slot,
        repay_amount,
        needs_unhealthy,
    );
    if res is Ok {
        let o1 = accrue_owed(o, repay_key, repay_reserve.liquidity.cumulative_borrow_rate_sf)->Ok_0;
        assert(o1.deposits == o.deposits);
        Obligation::lemma_find_deposit_same_keys(o1, o, withdraw_key, 0);
        let m = withdraw_reserve.collateral.mint_total_supply as int;
        let t = withdraw_reserve.liquidity.supply_value();
        if 0 < m && 0 < t <= u128::MAX {
            let (actual, seize) = res->Ok_0;
            let owed = actual * repay_reserve.liquidity.market_price_sf * (BPS_SCALER
                + withdraw_reserve.config.liquidation_bonus_pct) / (BPS_SCALER as int)
                / (withdraw_reserve.liquidity.market_price_sf as int);
            assert(owed >= 0) by (nonlinear_arith)
                requires
                    owed == actual * repay_reserve.liquidity.market_price_sf * (BPS_SCALER
                        + withdraw_reserve.config.liquidation_bonus_pct) / (BPS_SCALER as int)
                        / (withdraw_reserve.liquidity.market_price_sf as int),
                    withdraw_reserve.liquidity.market_price_sf > 0,
            ;
            let c = owed * m / t;
            assert(c * t <= owed * m && owed * m < (c + 1) * t) by (nonlinear_arith)
                requires
                    t > 0,
                    owed * m >= 0,
                    c == owed * m / t,
            ;
            assert(0 <= c) by (nonlinear_arith)
                requires
                    t > 0,
                    owed >= 0,
                    m > 0,
                    c == owed * m / t,
            ;
            let j = o.find_deposit_from(withdraw_key, 0)->Some_0;
            let deposited = o.deposits@[j].deposited_amount as int;
            if c < deposited {
                assert(seize == c);
            } else {
                assert(seize == deposited);
                assert(seize * t <= c * t) by (nonlinear_arith)
                    requires
                        seize <= c,
                        t > 0,
                ;
            }
        }
    }
}

/// Slot `k` of a successful pass over collateral slots `i..n` is its repriced
/// self when in range, and untouched otherwise.
pub proof fn lemma_refresh_deposits_slot(o: Obligation, accounts: Seq<(Pubkey, Reserve)>, i: int, n: int, k: int)
    requires
        0 <= i,
        0 <= k < 8,
    ensures
        refresh_deposits_from(o, accounts, i, n) matches Ok(o2) ==> {
            &&& o2.deposits_count == o.deposits_count
            &&& (i <= k < n ==> refreshed_deposit_slot(o.deposits@[k], accounts) == Ok::<
                ObligationCollateral,
                LendingError,
            >(o2.deposits@[k]))
            &&& (!(i <= k < n) ==> o2.deposits@[k] == o.deposits@[k])
        },
    decreases n - i,
{
    if !(i < 0 || i >= n || i >= 8) {
        match refreshed_deposit_slot(o.deposits@[i], accounts) {
            Ok(s) => {
                let o2 = with_deposit_slot(o, i, s);
                assert(o2.deposits@[i] == s);
                assert(k != i ==> o2.deposits@[k] == o.deposits@[k]);
                lemma_refresh_deposits_slot(o2, accounts, i + 1, n, k);
            },
            Err(_) => {},
        }
    }
}

/// A successful pass over debt slots leaves the collateral slots as they were.
pub proof fn lemma_refresh_borrows_keeps_deposits(o: Obligation, accounts: Seq<(Pubkey, Reserve)>, i: int, n: int)
    ensures
        refresh_borrows_from(o, accounts, i, n) matches Ok(o2) ==> o2.deposits == o.deposits
            && o2.deposits_count == o.deposits_count,
    decreases n - i,
{
    if !(i < 0 || i >= n || i >= 8) {
        match refreshed_borrow_slot(o.borrows@[i], accounts) {
            Ok(s) => lemma_refresh_borrows_keeps_deposits(with_borrow_slot(o, i, s), accounts, i + 1, n),
            Err(_) => {},
        }
    }
}

/// A refresh values collateral at what its cTokens redeem for, not at their
/// count: a counted collateral slot whose reserve is priced and non-empty on
/// both sides is worth `floor(cTokens × total supply / cToken supply)` tokens
/// × price × liquidation threshold / 100, where the token count is exactly what
/// converting the cTokens at the reserve's exchange rate gives (whenever that
/// fits a `u64`).
pub proof fn law_refresh_values_collateral_at_redeemable(
    o: Obligation,
    accounts: Seq<(Pubkey, Reserve)>,
    current_slot: u64,
    current_timestamp: i64,
    k: int,
)
    requires
        0 <= k < o.deposits_count,
        k < 8,
    ensures
        refresh_obligation_result(o, accounts, current_slot, current_timestamp) matches Ok(o2) ==> (
        match lookup_reserve_from(accounts, o.deposits@[k].deposit_reserve, 0) {
            Some(res) => {
                let ctokens = o.deposits@[k].deposited_amount as int;
                let ctoken_supply = res.collateral.mint_total_supply as int;
                let total = res.liquidity.supply_value();
                let price = res.liquidity.market_price_sf as int;
                let threshold = res.config.liquidation_threshold_pct as int;
                o.deposits@[k].active() && price > 0 && ctoken_supply > 0 && total > 0 ==> {
                    &&& o2.deposits@[k].market_value_sf == (ctokens * total / ctoken_supply)
                        * price * threshold / 100
                    &&& (ctokens * total / ctoken_supply <= u64::MAX
                        ==> o2.deposits@[k].market_value_sf
                        == res.exchange_rate_now().to_liquidity_value(o.deposits@[k].deposited_amount)
                        * price * threshold / 100)
                }
            },
            None => true,
        }),
{
    let n_b = o.borrows_count as int;
    lemma_refresh_borrows_keeps_deposits(o, accounts, 0, n_b);
    if refresh_obligation_result(o, accounts, current_slot, current_timestamp) is Ok {
        let o1 = refresh_borrows_from(o, accounts, 0, n_b)->Ok_0;
        lemma_refresh_deposits_slot(o1, accounts, 0, o.deposits_count as int, k);
        if let Some(res) = lookup_reserve_from(accounts, o.deposits@[k].deposit_reserve, 0) {
            let ctoken_supply = res.collateral.mint_total_supply as int;
            let total = res.liquidity.supply_value();
            if o.deposits@[k].active() && res.liquidity.market_price_sf > 0 && ctoken_supply > 0
                && total > 0 {
                assert(res.liquidity.supply_ok());
                assert(res.liquidity.supply_or_zero() == total);
            }
        }
    }
}

/// An instruction-level deposit never takes the reserve past its deposit
/// limit: after a successful deposit the total supply is within it.
pub proof fn law_deposit_instruction_within_limit(
    market: LendingMarket,
    reserve: Reserve,
    current_slot: u64,
    amount: u64,
)
    ensures
        deposit_result(market, reserve, current_slot, amount) matches Ok(minted)
            ==> reserve.accrued_at(current_slot).after_deposit(amount, minted).liquidity.supply_value()
            <= reserve.config.deposit_limit,
{
    crate::laws::law_deposit_within_limit(reserve.accrued_at(current_slot), amount);
}

/// Slot `k` of a successful pass over debt slots `i..n` is its repriced self
/// when in range, and untouched otherwise.
pub proof fn lemma_refresh_borrows_slot(o: Obligation, accounts: Seq<(Pubkey, Reserve)>, i: int, n: int, k: int)
    requires
        0 <= i,
        0 <= k < 8,
    ensures
        refresh_borrows_from(o, accounts, i, n) matches Ok(o2) ==> {
            &&& (i <= k < n ==> refreshed_borrow_slot(o.borrows@[k], accounts) == Ok::<
                ObligationLiquidity,
                LendingError,
            >(o2.borrows@[k]))
            &&& (!(i <= k < n) ==> o2.borrows@[k] == o.borrows@[k])
        },
    decreases n - i,
{
    if !(i < 0 || i >= n || i >= 8) {
        match refreshed_borrow_slot(o.borrows@[i], accounts) {
            Ok(s) => {
                let o2 = with_borrow_slot(o, i, s);
                assert(o2.borrows@[i] == s);
                assert(k != i ==> o2.borrows@[k] == o.borrows@[k]);
                lemma_refresh_borrows_slot(o2, accounts, i + 1, n, k);
            },
            Err(_) => {},
        }
    }
}

/// A successful pass over collateral slots leaves the debt slots as they were.
pub proof fn lemma_refresh_deposits_keeps_borrows(o: Obligation, accounts: Seq<(Pubkey, Reserve)>, i: int, n: int)
    ensures
        refresh_deposits_from(o, accounts, i, n) matches Ok(o2) ==> o2.borrows == o.borrows,
    decreases n - i,
{
    if !(i < 0 || i >= n || i >= 8) {
        match refreshed_deposit_slot(o.deposits@[i], accounts) {
            Ok(s) => lemma_refresh_deposits_keeps_borrows(with_deposit_slot(o, i, s), accounts, i + 1, n),
            Err(_) => {},
        }
    }
}

/// A refresh brings each counted debt slot whose reserve is priced current to
/// the reserve's rate index (the debt scaled by the index ratio, rounded down)
/// and values it at the whole tokens owed, rounded up, times the price.
pub proof fn law_refresh_values_debt_rounded_up(
    o: Obligation,
    accounts: Seq<(Pubkey, Reserve)>,
    current_slot: u64,
    current_timestamp: i64,
    k: int,
)
    requires
        0 <= k < o.borrows_count,
        k < 8,
    ensures
        refresh_obligation_result(o, accounts, current_slot, current_timestamp) matches Ok(o2) ==> (
        match lookup_reserve_from(accounts, o.borrows@[k].borrow_reserve, 0) {
            Some(res) => {
                let old_debt = o.borrows@[k].borrowed_amount_sf as int;
                let old_index = o.borrows@[k].cumulative_borrow_rate_sf as int;
                let index = res.liquidity.cumulative_borrow_rate_sf as int;
                let debt = o2.borrows@[k].borrowed_amount_sf as int;
                let price = res.liquidity.market_price_sf as int;
                o.borrows@[k].active() && price > 0 ==> {
                    &&& o2.borrows@[k].cumulative_borrow_rate_sf == index
                    &&& (old_index > 0 ==> debt * old_index <= old_debt * index && old_debt * index
                        < (debt + 1) * old_index)
                    &&& o2.borrows@[k].market_value_sf == price * ((debt + RATE_SCALE - 1)
                        / (RATE_SCALE as int))
                }
            },
            None => true,
        }),
{
    let n_b = o.borrows_count as int;
    if refresh_obligation_result(o, accounts, current_slot, current_timestamp) is Ok {
        let o1 = refresh_borrows_from(o, accounts, 0, n_b)->Ok_0;
        lemma_refresh_borrows_slot(o, accounts, 0, n_b, k);
        lemma_refresh_deposits_keeps_borrows(o1, accounts, 0, o.deposits_count as int);
        if let Some(res) = lookup_reserve_from(accounts, o.borrows@[k].borrow_reserve, 0) {
            if o.borrows@[k].active() && res.liquidity.market_price_sf > 0 {
                let s = accrue_slot(o.borrows@[k], res.liquidity.cumulative_borrow_rate_sf)->Ok_0;
                crate::obligation_laws::law_accrue_slot_scales_debt_by_index_ratio(
                    o.borrows@[k],
                    res.liquidity.cumulative_borrow_rate_sf,
                );
                let d = s.borrowed_amount_sf as int;
                let rs = RATE_SCALE as int;
                assert(whole_tokens_owed(s.borrowed_amount_sf) == (d + rs - 1) / rs) by (nonlinear_arith)
                    requires
                        rs == 1_000_000_000_000,
                        d >= 0,
                        whole_tokens_owed(s.borrowed_amount_sf) == d / rs + if d % rs == 0 {
                            0int
                        } else {
                            1int
                        },
                ;
                assert(o1.borrows@[k].borrowed_amount_sf == s.borrowed_amount_sf);
                assert(o1.borrows@[k].cumulative_borrow_rate_sf == s.cumulative_borrow_rate_sf);
                assert(o1.borrows@[k].market_value_sf == whole_tokens_owed(s.borrowed_amount_sf)
                    * res.liquidity.market_price_sf);
                let w = (d + rs - 1) / rs;
                let p = res.liquidity.market_price_sf as int;
                assert(w * p == p * w) by (nonlinear_arith);
                let o2 = refresh_obligation_result(o, accounts, current_slot, current_timestamp)->Ok_0;
                assert(o2.borrows@[k] == o1.borrows@[k]);
                assert(o2.borrows@[k].market_value_sf == p * w);
                assert(o2.borrows@[k].cumulative_borrow_rate_sf == res.liquidity.cumulative_borrow_rate_sf);
            }
        }
    }
}

/// The liquidation instruction seizes collateral as the liquidation step does,
/// with both reserves first brought current: the cTokens seized redeem, at the
/// collateral reserve's current exchange rate, for no more than the bonus value
/// of what was repaid, and are the most that do unless capped by the deposit.
pub proof fn law_liquidate_seizes_owed_worth(
    market: LendingMarket,
    lending_market_key: Pubkey,
    repay_reserve: Reserve,
    withdraw_reserve: Reserve,
    obligation: Obligation,
    repay_key: Pubkey,
    withdraw_key: Pubkey,
    current_slot: u64,
    repay_amount: u64,
)
    ensures
        liquidate_result(
            market,
            lending_market_key,
            repay_reserve,
            withdraw_reserve,
            obligation,
            repay_key,
            withdraw_key,
            current_slot,
            repay_amount,
        ) matches Ok((actual, seize)) ==> ({
            let rr = repay_reserve.accrued_at(current_slot);
            let wr = crate::instructions::withdraw_side(
                repay_reserve,
                withdraw_reserve,
                repay_key,
                withdraw_key,
                current_slot,
            ).accrued_at(current_slot);
            let owed = actual * rr.liquidity.market_price_sf * (BPS_SCALER
                + wr.config.liquidation_bonus_pct) / (BPS_SCALER as int)
                / (wr.liquidity.market_price_sf as int);
            let ctoken_supply = wr.collateral.mint_total_supply as int;
            let total = wr.liquidity.supply_value();
            let deposited = obligation.deposits@[obligation.find_deposit_from(withdraw_key, 0)->Some_0].deposited_amount;
            0 < ctoken_supply && 0 < total ==> {
                &&& seize <= deposited
                &&& seize * total <= owed * ctoken_supply
                &&& (seize == deposited || owed * ctoken_supply < (seize + 1) * total)
            }
        }),
{
    let rr = repay_reserve.accrued_at(current_slot);
    let wr = crate::instructions::withdraw_side(
        repay_reserve,
        withdraw_reserve,
        repay_key,
        withdraw_key,
        current_slot,
    ).accrued_at(current_slot);
    law_liquidation_seizes_owed_worth(
        obligation,
        rr,
        wr,
        repay_key,
        withdraw_key,
        current_slot,
        repay_amount,
        true,
    );
    if wr.liquidity.supply_ok() {
        assert(wr.liquidity.supply_value() <= u128::MAX);
    }
}

} // verus!
