//! Properties of the library as a whole, proved over the contracts' models.
use vstd::prelude::*;

use crate::constants::{BPS_SCALER, MAX_PROTOCOL_FEE_BPS, RATE_SCALE, SLOTS_PER_YEAR};
use crate::error::LendingError;
use crate::reserve::Reserve;
use crate::reserve_collateral::CollateralExchangeRate;
use crate::reserve_config::ReserveConfig;
use crate::reserve_liquidity::{period_rate, ReserveLiquidity};

verus! {

/// A deposit into a pool with no cTokens or no liquidity mints exactly as
/// many cTokens as tokens deposited (1:1).
pub proof fn law_empty_pool_mints_one_to_one(reserve: Reserve, amount: u64)
    requires
        reserve.collateral.mint_total_supply == 0 || reserve.liquidity.supply_or_zero() == 0,
    ensures
        reserve.deposit_result(amount) matches Ok(minted) ==> minted == amount,
{
    let rate = reserve.exchange_rate_now();
    assert(rate.collateral_supply == 1 && rate.total_liquidity == 1);
    assert(amount * rate.collateral_supply / (rate.total_liquidity as int) == amount);
}

/// Converting tokens to cTokens and back never yields more tokens than went in.
pub proof fn law_exchange_round_trip_never_gains(rate: CollateralExchangeRate, amount: u64)
    requires
        rate.to_collateral_ok(amount),
        rate.collateral_supply > 0,
        amount * rate.collateral_supply / (rate.total_liquidity as int) <= u64::MAX,
        rate.to_liquidity_ok(rate.to_collateral_value(amount)),
    ensures
        rate.to_liquidity_value(rate.to_collateral_value(amount)) <= amount,
{
    let s = rate.collateral_supply as int;
    let t = rate.total_liquidity as int;
    let x = amount as int;
    let c = x * s / t;
    assert(rate.to_collateral_value(amount) == c);
    assert(c * t <= x * s) by (nonlinear_arith)
        requires
            t > 0,
            c == x * s / t,
            x >= 0,
            s >= 0,
    ;
    assert(c * t / s <= x) by (nonlinear_arith)
        requires
            s > 0,
            c * t <= x * s,
            c >= 0,
            t >= 0,
    ;
}

/// The period rate of a positive rate over positive slots is never negative,
/// and accrual never lowers the debt, the fees or the rate index.
pub proof fn law_accrual_never_decreases(
    liquidity: ReserveLiquidity,
    borrow_rate: u64,
    slots: u64,
    protocol_fee: u64,
)
    requires
        liquidity.accrual_fits(borrow_rate, slots, protocol_fee),
    ensures
        liquidity.accrued(borrow_rate, slots, protocol_fee).borrowed_amount_sf
            >= liquidity.borrowed_amount_sf,
        liquidity.accrued(borrow_rate, slots, protocol_fee).accumulated_protocol_fees
            >= liquidity.accumulated_protocol_fees,
        liquidity.accrued(borrow_rate, slots, protocol_fee).cumulative_borrow_rate_sf
            >= liquidity.cumulative_borrow_rate_sf,
        liquidity.accrued(borrow_rate, slots, protocol_fee).available_amount
            == liquidity.available_amount,
{
    let rate = period_rate(borrow_rate as int, slots as int);
    lemma_period_rate_nonneg(borrow_rate as int, slots as int);
    assert(rate * liquidity.borrowed_amount_sf >= 0) by (nonlinear_arith)
        requires
            rate >= 0,
    ;
    let debt = rate * liquidity.borrowed_amount_sf / (RATE_SCALE as int);
    assert(debt * protocol_fee >= 0) by (nonlinear_arith)
        requires
            debt >= 0,
    ;
    assert(rate * liquidity.cumulative_borrow_rate_sf >= 0) by (nonlinear_arith)
        requires
            rate >= 0,
    ;
}

pub proof fn lemma_period_rate_nonneg(borrow_rate: int, slots: int)
    requires
        borrow_rate >= 0,
        slots >= 0,
    ensures
        period_rate(borrow_rate, slots) >= 0,
{
    assert(borrow_rate * slots * (RATE_SCALE as int) >= 0) by (nonlinear_arith)
        requires
            borrow_rate >= 0,
            slots >= 0,
    ;
}

/// With a protocol fee of at most 100%, accrual never lowers the total supply,
/// so each cToken is worth at least as much afterwards.
pub proof fn law_accrual_never_lowers_supply(
    liquidity: ReserveLiquidity,
    borrow_rate: u64,
    slots: u64,
    protocol_fee: u64,
)
    requires
        liquidity.accrual_fits(borrow_rate, slots, protocol_fee),
        protocol_fee <= BPS_SCALER,
    ensures
        liquidity.accrued(borrow_rate, slots, protocol_fee).supply_value() >= liquidity.supply_value(),
{
    let rate = period_rate(borrow_rate as int, slots as int);
    lemma_period_rate_nonneg(borrow_rate as int, slots as int);
    assert(rate * liquidity.borrowed_amount_sf >= 0) by (nonlinear_arith)
        requires
            rate >= 0,
    ;
    let debt = rate * liquidity.borrowed_amount_sf / (RATE_SCALE as int);
    assert(debt * protocol_fee / (BPS_SCALER as int) <= debt) by (nonlinear_arith)
        requires
            debt >= 0,
            0 <= protocol_fee <= BPS_SCALER,
    ;
}

/// For a valid configuration, the borrow rate over utilizations in
/// `[0, 10_000]` starts at the minimum rate, stays between the minimum and
/// maximum rates, and never falls as utilization rises.
pub proof fn law_rate_curve_bounded(config: ReserveConfig, util: int)
    requires
        config.is_valid(),
        0 <= util <= BPS_SCALER,
    ensures
        config.min_borrow_rate_bps <= config.rate_curve(util) <= config.max_borrow_rate_bps,
        config.rate_curve(0) == config.min_borrow_rate_bps,
{
    let ou = config.optimal_utilization_bps as int;
    let mn = config.min_borrow_rate_bps as int;
    let op = config.optimal_borrow_rate_bps as int;
    let mx = config.max_borrow_rate_bps as int;
    if util <= ou {
        if ou > 0 {
            assert(util * (op - mn) / ou <= op - mn) by (nonlinear_arith)
                requires
                    0 <= util <= ou,
                    ou > 0,
                    op - mn >= 0,
            ;
            assert(util * (op - mn) / ou >= 0) by (nonlinear_arith)
                requires
                    0 <= util,
                    ou > 0,
                    op - mn >= 0,
            ;
        }
    } else {
        let rem = BPS_SCALER - ou;
        if rem > 0 {
            assert((util - ou) * (mx - op) / rem <= mx - op) by (nonlinear_arith)
                requires
                    0 <= util - ou <= rem,
                    rem > 0,
                    mx - op >= 0,
            ;
            assert((util - ou) * (mx - op) / rem >= 0) by (nonlinear_arith)
                requires
                    0 <= util - ou,
                    rem > 0,
                    mx - op >= 0,
            ;
        }
    }
}

/// The curve passes through the optimal rate at the optimal utilization, and
/// through the maximum rate at full utilization.
pub proof fn law_rate_curve_kinks(config: ReserveConfig)
    requires
        config.is_valid(),
        config.optimal_utilization_bps > 0,
        config.optimal_utilization_bps < BPS_SCALER,
    ensures
        config.rate_curve(config.optimal_utilization_bps as int) == config.optimal_borrow_rate_bps,
        config.rate_curve(BPS_SCALER as int) == config.max_borrow_rate_bps,
{
    let ou = config.optimal_utilization_bps as int;
    let mn = config.min_borrow_rate_bps as int;
    let op = config.optimal_borrow_rate_bps as int;
    let mx = config.max_borrow_rate_bps as int;
    assert(ou * (op - mn) / ou == op - mn) by (nonlinear_arith)
        requires
            ou > 0,
    ;
    let rem = BPS_SCALER - ou;
    assert(rem * (mx - op) / rem == mx - op) by (nonlinear_arith)
        requires
            rem > 0,
    ;
}

/// The curve never falls as utilization rises within `[0, 10_000]`.
pub proof fn law_rate_curve_monotone(config: ReserveConfig, u1: int, u2: int)
    requires
        config.is_valid(),
        0 <= u1 <= u2 <= BPS_SCALER,
    ensures
        config.rate_curve(u1) <= config.rate_curve(u2),
{
    let ou = config.optimal_utilization_bps as int;
    let mn = config.min_borrow_rate_bps as int;
    let op = config.optimal_borrow_rate_bps as int;
    let mx = config.max_borrow_rate_bps as int;
    let rem = BPS_SCALER - ou;
    if u2 <= ou {
        if ou > 0 {
            assert(u1 * (op - mn) / ou <= u2 * (op - mn) / ou) by (nonlinear_arith)
                requires
                    0 <= u1 <= u2,
                    ou > 0,
                    op - mn >= 0,
            ;
        }
    } else if u1 > ou {
        if rem > 0 {
            assert((u1 - ou) * (mx - op) / rem <= (u2 - ou) * (mx - op) / rem) by (nonlinear_arith)
                requires
                    0 <= u1 - ou <= u2 - ou,
                    rem > 0,
                    mx - op >= 0,
            ;
        }
    } else {
        law_rate_curve_bounded(config, u1);
        if ou > 0 {
            assert(u1 * (op - mn) / ou <= op - mn) by (nonlinear_arith)
                requires
                    0 <= u1 <= ou,
                    ou > 0,
                    op - mn >= 0,
            ;
        }
        if rem > 0 {
            assert((u2 - ou) * (mx - op) / rem >= 0) by (nonlinear_arith)
                requires
                    0 <= u2 - ou,
                    rem > 0,
                    mx - op >= 0,
            ;
        }
    }
}

/// For a valid configuration and a utilization within `[0, 10_000]`, the
/// stored rate is the curve's value: nothing is lost to the `u16`.
pub proof fn law_rate_fits(config: ReserveConfig, util: u16)
    requires
        config.is_valid(),
        util <= BPS_SCALER,
    ensures
        config.rate_curve(util as int) as u16 == config.rate_curve(util as int),
{
    law_rate_curve_bounded(config, util as int);
}

/// Withdrawing what was just deposited into the pool succeeds and restores it.
pub proof fn law_liquidity_withdraw_undoes_deposit(liquidity: ReserveLiquidity, amount: u64)
    requires
        liquidity.available_amount + amount <= u64::MAX,
    ensures
        liquidity.deposited(amount).available_amount >= amount,
        liquidity.deposited(amount).withdrawn(amount) == liquidity,
{
}

/// Repaying what was just lent succeeds and restores the pool.
pub proof fn law_liquidity_repay_undoes_borrow(liquidity: ReserveLiquidity, amount: u64)
    requires
        liquidity.available_amount >= amount,
        liquidity.borrowed_amount_sf + amount <= u128::MAX,
    ensures
        liquidity.lent(amount).borrowed_amount_sf >= amount,
        liquidity.lent(amount).available_amount + amount <= u64::MAX,
        liquidity.lent(amount).repaid(amount) == liquidity,
{
}

/// Lending and repaying move tokens between available and borrowed: the
/// total supply, and so each cToken's worth, is unchanged.
pub proof fn law_lending_keeps_supply(liquidity: ReserveLiquidity, amount: u64)
    ensures
        liquidity.available_amount >= amount && liquidity.borrowed_amount_sf + amount <= u128::MAX
            ==> liquidity.lent(amount).supply_value()
            == liquidity.supply_value(),
        liquidity.borrowed_amount_sf >= amount && liquidity.available_amount + amount <= u64::MAX
            ==> liquidity.repaid(amount).supply_value() == liquidity.supply_value(),
{
}

/// Redeeming the cTokens a deposit just minted never pays out more tokens
/// than were deposited. Left out: a pool whose tokens are not all backed by
/// cTokens (cTokens at 0 with a positive supply), where the first depositor
/// takes the rest, and a pool whose total would leave `u128`.
pub proof fn law_redeem_after_deposit_never_gains(reserve: Reserve, amount: u64)
    requires
        reserve.deposit_result(amount) is Ok,
        reserve.collateral.mint_total_supply == 0 ==> reserve.liquidity.supply_value() == 0,
        reserve.after_deposit(amount, reserve.deposit_result(amount)->Ok_0).liquidity.supply_ok(),
    ensures
        ({
            let minted = reserve.deposit_result(amount)->Ok_0;
            reserve.after_deposit(amount, minted).redeem_result(minted) matches Ok(paid) ==> paid
                <= amount
        }),
{
    let minted = reserve.deposit_result(amount)->Ok_0;
    let after = reserve.after_deposit(amount, minted);
    let m = reserve.collateral.mint_total_supply as int;
    let s0 = reserve.liquidity.supply_value();
    let a = amount as int;
    let x = minted as int;
    assert(after.liquidity.supply_value() == s0 + a);
    // The cTokens minted are worth no more than what came in: x * s0 <= a * m.
    if m > 0 && s0 > 0 {
        let exact = a * m / s0;
        assert(exact * s0 <= a * m) by (nonlinear_arith)
            requires
                s0 > 0,
                a >= 0,
                m >= 0,
                exact == a * m / s0,
        ;
        assert(a * m <= u128::MAX);
        assert(0 <= exact <= u128::MAX) by (nonlinear_arith)
            requires
                s0 > 0,
                0 <= a * m <= u128::MAX,
                exact == a * m / s0,
        ;
        let eu: u128 = exact as u128;
        assert((eu as u64) as u128 <= eu) by (bit_vector);
        assert(x <= exact);
        assert(x * s0 <= a * m) by (nonlinear_arith)
            requires
                0 <= x <= exact,
                s0 > 0,
                exact * s0 <= a * m,
        ;
    } else {
        let rate = reserve.exchange_rate_now();
        assert(rate.collateral_supply == 1 && rate.total_liquidity == 1);
        let cs = rate.collateral_supply as int;
        let tl = rate.total_liquidity as int;
        assert(a * cs / tl == a) by (nonlinear_arith)
            requires
                cs == 1,
                tl == 1,
        ;
        assert(x == a);
    }
    let mm = after.collateral.mint_total_supply as int;
    let ss = s0 + a;
    assert(mm == m + x);
    if mm > 0 && ss > 0 {
        if m > 0 && s0 > 0 {
            assert(x * ss / mm <= a) by (nonlinear_arith)
                requires
                    x >= 0,
                    s0 > 0,
                    a >= 0,
                    m >= 0,
                    mm == m + x,
                    mm > 0,
                    ss == s0 + a,
                    x * s0 <= a * m,
            {
                assert(x * ss <= a * mm);
                vstd::arithmetic::div_mod::lemma_div_is_ordered(x * ss, a * mm, mm);
                vstd::arithmetic::div_mod::lemma_div_by_multiple(a, mm);
            }
        } else {
            assert(s0 == 0);
            assert(x * ss / mm <= a) by (nonlinear_arith)
                requires
                    x == a,
                    a >= 0,
                    m >= 0,
                    mm == m + x,
                    mm > 0,
                    ss == a,
            {
                assert(x * ss <= a * mm);
                vstd::arithmetic::div_mod::lemma_div_is_ordered(x * ss, a * mm, mm);
                vstd::arithmetic::div_mod::lemma_div_by_multiple(a, mm);
            }
        }
    }
}

/// A deposit never lowers what each cToken already in circulation is worth:
/// the cTokens it mints are rounded down, in the pool's favour.
pub proof fn law_deposit_never_dilutes(reserve: Reserve, amount: u64)
    requires
        reserve.collateral.mint_total_supply > 0,
        reserve.liquidity.supply_ok(),
    ensures
        reserve.deposit_result(amount) matches Ok(minted) ==> {
            let after = reserve.after_deposit(amount, minted);
            after.liquidity.supply_value() * reserve.collateral.mint_total_supply
                >= reserve.liquidity.supply_value() * after.collateral.mint_total_supply
        },
{
    if let Ok(minted) = reserve.deposit_result(amount) {
        let m = reserve.collateral.mint_total_supply as int;
        let s = reserve.liquidity.supply_value();
        let a = amount as int;
        let x = minted as int;
        if s > 0 {
            let exact = a * m / s;
            assert(exact * s <= a * m) by (nonlinear_arith)
                requires
                    s > 0,
                    a >= 0,
                    m >= 0,
                    exact == a * m / s,
            ;
            assert(0 <= exact <= u128::MAX) by (nonlinear_arith)
                requires
                    s > 0,
                    0 <= a * m <= u128::MAX,
                    exact == a * m / s,
            ;
            let eu: u128 = exact as u128;
            assert((eu as u64) as u128 <= eu) by (bit_vector);
            assert(x * s <= a * m) by (nonlinear_arith)
                requires
                    0 <= x <= exact,
                    s > 0,
                    exact * s <= a * m,
            ;
            assert((s + a) * m >= s * (m + x)) by (nonlinear_arith)
                requires
                    x * s <= a * m,
            ;
        } else {
            assert(a * m >= 0) by (nonlinear_arith)
                requires
                    a >= 0,
                    m >= 0,
            ;
        }
    }
}

/// A redemption never lowers what each cToken left in circulation is worth:
/// the tokens it pays out are rounded down, in the pool's favour. Left out: a
/// pool whose fees take up its whole supply, where cTokens redeem 1:1 out of
/// the fees.
pub proof fn law_redeem_never_dilutes(reserve: Reserve, collateral_amount: u64)
    requires
        reserve.collateral.mint_total_supply > 0,
        reserve.liquidity.supply_ok(),
        reserve.liquidity.supply_value() > 0,
    ensures
        reserve.redeem_result(collateral_amount) matches Ok(paid) ==> {
            let after = reserve.after_redeem(collateral_amount, paid);
            after.liquidity.supply_value() * reserve.collateral.mint_total_supply
                >= reserve.liquidity.supply_value() * after.collateral.mint_total_supply
        },
{
    if let Ok(paid) = reserve.redeem_result(collateral_amount) {
        let m = reserve.collateral.mint_total_supply as int;
        let s = reserve.liquidity.supply_value();
        let c = collateral_amount as int;
        let p = paid as int;
        let exact = c * s / m;
        assert(exact * m <= c * s) by (nonlinear_arith)
            requires
                m > 0,
                c >= 0,
                s >= 0,
                exact == c * s / m,
        ;
        assert(0 <= exact <= u128::MAX) by (nonlinear_arith)
            requires
                m > 0,
                0 <= c * s <= u128::MAX,
                exact == c * s / m,
        ;
        let eu: u128 = exact as u128;
        assert((eu as u64) as u128 <= eu) by (bit_vector);
        assert(p * m <= c * s) by (nonlinear_arith)
            requires
                0 <= p <= exact,
                m > 0,
                exact * m <= c * s,
        ;
        assert((s - p) * m >= s * (m - c)) by (nonlinear_arith)
            requires
                p * m <= c * s,
        ;
    }
}

/// Interest accrues once per slot: a reserve brought current to a slot is
/// current there, and accruing again in that slot succeeds and changes nothing.
pub proof fn law_accrual_once_per_slot(reserve: Reserve, current_slot: u64)
    ensures
        reserve.accrued_at(current_slot).slots_since(current_slot) == 0,
        reserve.accrued_at(current_slot).accrued_at(current_slot) == reserve.accrued_at(current_slot),
        reserve.accrued_at(current_slot).accrue_ok(current_slot),
{
}

/// Repaying what was just lent out succeeds and restores the reserve.
pub proof fn law_reserve_repay_undoes_borrow(reserve: Reserve, amount: u64)
    requires
        reserve.borrow_result(amount) is Ok,
    ensures
        reserve.after_borrow(amount).repay_ok(amount),
        reserve.after_borrow(amount).after_repay(amount) == reserve,
{
}

/// The borrow rate a reserve charges is the interest curve read at its
/// utilization in basis points: the borrowed share of the total supply in
/// whole percent, times 100. An empty pool charges the minimum rate.
/// Left out: a pool whose debt exceeds its total supply (utilization above
/// 100%), where the basis points no longer fit the curve's `u16` input.
pub proof fn law_borrow_rate_at_utilization_bps(reserve: Reserve)
    requires
        reserve.config.is_valid(),
    ensures
        reserve.liquidity.supply_or_zero() == 0 ==> reserve.current_rate()
            == reserve.config.min_borrow_rate_bps,
        reserve.liquidity.supply_ok() && reserve.liquidity.supply_value() > 0
            && reserve.liquidity.borrowed_amount_sf <= reserve.liquidity.supply_value()
            ==> reserve.current_rate() == reserve.config.rate_curve(
            100 * (reserve.liquidity.borrowed_amount_sf * 100 / reserve.liquidity.supply_value()),
        ),
{
    let l = reserve.liquidity;
    if l.supply_or_zero() == 0 {
        assert(l.utilization_value() == 0);
        assert(((0int * 100) as u16) as int == 0);
        law_rate_fits(reserve.config, 0u16);
    } else if l.supply_ok() && l.supply_value() > 0 && l.borrowed_amount_sf <= l.supply_value() {
        let s = l.supply_value();
        let b = l.borrowed_amount_sf as int;
        let u = b * 100 / s;
        assert(0 <= u <= 100) by (nonlinear_arith)
            requires
                s > 0,
                0 <= b <= s,
                u == b * 100 / s,
        ;
        assert(l.utilization_value() == u);
        let bps: u16 = (u * 100) as u16;
        assert(bps == u * 100);
        law_rate_fits(reserve.config, bps);
    }
}

/// A deposit never takes the reserve past its deposit limit: a successful
/// deposit leaves the total supply (available + borrowed - fees) within the
/// limit, and one that would exceed it is refused with `DepositLimitExceeded`.
pub proof fn law_deposit_within_limit(reserve: Reserve, amount: u64)
    ensures
        reserve.deposit_result(amount) matches Ok(minted) ==> {
            &&& reserve.liquidity.supply_value() + amount <= reserve.config.deposit_limit
            &&& reserve.after_deposit(amount, minted).liquidity.supply_value()
                <= reserve.config.deposit_limit
        },
        reserve.liquidity.supply_ok() && reserve.liquidity.supply_value() + amount
            > reserve.config.deposit_limit ==> reserve.deposit_result(amount)
            == Err::<u64, LendingError>(LendingError::DepositLimitExceeded),
{
}

/// Accrual grows the rate index by the same period rate as the debt: with
/// `r` the period rate (annual bps × slots, scaled by `RATE_SCALE`, over a
/// year of slots and 10_000 bps), the debt grows by `floor(r × debt /
/// RATE_SCALE)` and the index by `floor(r × index / RATE_SCALE)`, so a debt
/// brought current by the index ratio grows as the pool's debt does.
pub proof fn law_accrual_scales_index_like_debt(
    liquidity: ReserveLiquidity,
    borrow_rate: u64,
    slots: u64,
    protocol_fee: u64,
)
    requires
        liquidity.accrual_fits(borrow_rate, slots, protocol_fee),
    ensures
        ({
            let r = borrow_rate * slots * (RATE_SCALE as int) / (SLOTS_PER_YEAR as int) / (
            BPS_SCALER as int);
            let after = liquidity.accrued(borrow_rate, slots, protocol_fee);
            let debt_growth = after.borrowed_amount_sf - liquidity.borrowed_amount_sf;
            let index_growth = after.cumulative_borrow_rate_sf
                - liquidity.cumulative_borrow_rate_sf;
            &&& debt_growth * (RATE_SCALE as int) <= r * liquidity.borrowed_amount_sf
            &&& r * liquidity.borrowed_amount_sf < (debt_growth + 1) * (RATE_SCALE as int)
            &&& index_growth * (RATE_SCALE as int) <= r * liquidity.cumulative_borrow_rate_sf
            &&& r * liquidity.cumulative_borrow_rate_sf < (index_growth + 1) * (
            RATE_SCALE as int)
        }),
{
    let r = period_rate(borrow_rate as int, slots as int);
    lemma_period_rate_nonneg(borrow_rate as int, slots as int);
    let rs = RATE_SCALE as int;
    let b = liquidity.borrowed_amount_sf as int;
    let i = liquidity.cumulative_borrow_rate_sf as int;
    let d = r * b / rs;
    let g = r * i / rs;
    assert(r * b >= 0 && r * i >= 0) by (nonlinear_arith)
        requires
            r >= 0,
            b >= 0,
            i >= 0,
    ;
    assert(d * rs <= r * b && r * b < (d + 1) * rs) by (nonlinear_arith)
        requires
            rs > 0,
            d == r * b / rs,
    ;
    assert(g * rs <= r * i && r * i < (g + 1) * rs) by (nonlinear_arith)
        requires
            rs > 0,
            g == r * i / rs,
    ;
}

/// The protocol takes `protocol_fee` basis points of the interest that
/// accrues, rounded down; the rest of the new debt goes to depositors.
pub proof fn law_accrual_fee_share(
    liquidity: ReserveLiquidity,
    borrow_rate: u64,
    slots: u64,
    protocol_fee: u64,
)
    requires
        liquidity.accrual_fits(borrow_rate, slots, protocol_fee),
    ensures
        ({
            let after = liquidity.accrued(borrow_rate, slots, protocol_fee);
            let interest = after.borrowed_amount_sf - liquidity.borrowed_amount_sf;
            let fee = after.accumulated_protocol_fees - liquidity.accumulated_protocol_fees;
            &&& fee * (BPS_SCALER as int) <= interest * protocol_fee
            &&& interest * protocol_fee < (fee + 1) * (BPS_SCALER as int)
            &&& after.available_amount == liquidity.available_amount
        }),
{
    let r = period_rate(borrow_rate as int, slots as int);
    lemma_period_rate_nonneg(borrow_rate as int, slots as int);
    let b = liquidity.borrowed_amount_sf as int;
    assert(r * b >= 0) by (nonlinear_arith)
        requires
            r >= 0,
            b >= 0,
    ;
    let d = r * b / (RATE_SCALE as int);
    let f = d * protocol_fee / (BPS_SCALER as int);
    assert(d * protocol_fee >= 0) by (nonlinear_arith)
        requires
            d >= 0,
            protocol_fee >= 0,
    ;
    assert(f * 10000 <= d * protocol_fee && d * protocol_fee < (f + 1) * 10000) by (nonlinear_arith)
        requires
            d * protocol_fee >= 0,
            f == d * protocol_fee / 10000,
    ;
}

} // verus!
