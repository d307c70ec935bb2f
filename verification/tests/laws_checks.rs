use veilvault::circuits::{
    add_borrow_v2, add_collateral_v2, check_health_v2, init_position_v2, remove_borrow_2,
    remove_collateral_2, PrivatePosition,
};
use veilvault::constants::{RATE_SCALE, SLOTS_PER_YEAR};
use veilvault::error::LendingError;
use veilvault::obligation::{InitObligationParams, Obligation};
use veilvault::pubkey::Pubkey;
use veilvault::reserve::Reserve;
use veilvault::reserve_collateral::{CollateralExchangeRate, NewReserveCollateralParams};
use veilvault::reserve_config::{InitReserveConfigParams, ReserveConfig};
use veilvault::reserve_liquidity::{NewReserveLiquidityParams, ReserveLiquidity};

fn key(seed: u8) -> Pubkey {
    Pubkey::new_from_array([seed; 32])
}

fn fresh_obligation() -> Obligation {
    let mut o = Obligation::default();
    o.init(InitObligationParams { bump: 1, owner: key(1), lending_market: key(2) });
    o
}

fn params() -> InitReserveConfigParams {
    InitReserveConfigParams {
        status: 0,
        min_borrow_rate_bps: 200,
        optimal_borrow_rate_bps: 2000,
        max_borrow_rate_bps: 10000,
        optimal_utilization_bps: 8000,
        loan_to_value_pct: 75,
        liquidation_threshold_pct: 80,
        liquidation_bonus_pct: 500,
        deposit_limit: 1_000_000,
        borrow_limit: 800_000,
        protocol_fee: 500,
        pyth_oracle: Pubkey::default(),
    }
}

fn reserve() -> Reserve {
    let mut r = Reserve::default();
    r.last_update_slot = 100;
    r.liquidity.init(NewReserveLiquidityParams {
        mint: Pubkey::default(),
        supply_vault: Pubkey::default(),
        fee_vault: Pubkey::default(),
    });
    r.collateral.init(NewReserveCollateralParams {
        mint_pda: Pubkey::default(),
        supply_vault_pda: Pubkey::default(),
    });
    r.config.init(params()).unwrap();
    r
}

fn liquidity() -> ReserveLiquidity {
    let mut l = ReserveLiquidity::default();
    l.init(NewReserveLiquidityParams {
        mint: Pubkey::default(),
        supply_vault: Pubkey::default(),
        fee_vault: Pubkey::default(),
    });
    l
}

// ── obligation laws ───────────────────────────────────────────────────────────

#[test]
fn withdraw_undoes_deposit_on_an_open_slot() {
    let mut o = fresh_obligation();
    o.deposit(key(10), 300).unwrap();
    let before = o;
    o.deposit(key(10), 200).unwrap();
    o.withdraw(key(10), 200).unwrap();
    assert_eq!(o.deposits[0].deposited_amount, before.deposits[0].deposited_amount);
    assert_eq!(o.deposits_count, before.deposits_count);
}

#[test]
fn withdraw_undoes_deposit_on_a_new_slot() {
    let mut o = fresh_obligation();
    o.deposit(key(10), 300).unwrap();
    o.deposit(key(11), 200).unwrap();
    o.withdraw(key(11), 200).unwrap();
    assert_eq!(o.deposits_count, 1);
    assert!(!o.deposits[1].is_active());
    assert_eq!(o.deposits[1].deposited_amount, 0);
    assert_eq!(o.deposits[0].deposited_amount, 300);
}

#[test]
fn repay_undoes_borrow() {
    let mut o = fresh_obligation();
    o.borrow(key(20), 100, RATE_SCALE).unwrap();
    o.borrow(key(20), 40, RATE_SCALE).unwrap();
    o.repay(key(20), 40).unwrap();
    assert_eq!(o.borrows[0].borrowed_amount_sf, 100 * RATE_SCALE);
    assert_eq!(o.borrows_count, 1);
    o.borrow(key(21), 7, RATE_SCALE * 3).unwrap();
    o.repay(key(21), 7).unwrap();
    assert!(!o.borrows[1].is_active());
    assert_eq!(o.borrows[1].cumulative_borrow_rate_sf, RATE_SCALE);
    assert_eq!(o.borrows_count, 1);
}

#[test]
fn repay_closes_a_slot_left_with_dust() {
    let mut o = fresh_obligation();
    o.borrow(key(20), 100, RATE_SCALE).unwrap();
    // rate grows by less than a token's worth on 100 tokens: 100.0000001 tokens owed
    o.accrue_interest(0, RATE_SCALE + 1_000).unwrap();
    assert_eq!(o.borrows[0].borrowed_amount_sf, 100 * RATE_SCALE + 100_000);
    o.repay(key(20), 100).unwrap();
    assert!(!o.borrows[0].is_active(), "less than one token left closes the slot");
    assert_eq!(o.borrows_count, 0);
    assert_eq!(o.borrows[0].borrowed_amount_sf, 0);
}

#[test]
fn accrue_never_lowers_debt_and_keeps_counts() {
    let mut o = fresh_obligation();
    o.borrow(key(20), 3, RATE_SCALE).unwrap();
    o.accrue_interest(0, RATE_SCALE * 3 / 2).unwrap();
    assert_eq!(o.borrows[0].borrowed_amount_sf, 3 * RATE_SCALE * 3 / 2);
    assert!(o.counts_are_consistent());
}

#[test]
fn accrue_overflow_is_refused() {
    let mut o = fresh_obligation();
    o.borrow(key(20), 1_000_000_000, RATE_SCALE).unwrap();
    let before = o;
    assert_eq!(o.accrue_interest(0, u128::MAX / 2), Err(LendingError::MathOverflow));
    assert_eq!(o.borrows[0].borrowed_amount_sf, before.borrows[0].borrowed_amount_sf);
}

#[test]
fn counts_stay_consistent_through_operations() {
    let mut o = fresh_obligation();
    assert!(o.counts_are_consistent());
    o.deposit(key(10), 5).unwrap();
    o.deposit(key(11), 5).unwrap();
    o.borrow(key(20), 5, RATE_SCALE).unwrap();
    o.withdraw(key(10), 5).unwrap();
    o.repay(key(20), 5).unwrap();
    assert!(o.counts_are_consistent());
    assert_eq!(o.active_deposits(), 1);
    assert_eq!(o.active_borrow(), 0);
    o.deposits_count = 3;
    assert!(!o.counts_are_consistent());
}

#[test]
fn borrow_overflow_and_full_slots() {
    let mut o = fresh_obligation();
    // the slot for a new reserve is opened before the amount is scaled, and stays open
    assert_eq!(o.borrow(key(20), u128::MAX, RATE_SCALE), Err(LendingError::MathOverflow));
    assert_eq!(o.borrows_count, 1);
    assert_eq!(o.borrows[0].borrow_reserve, key(20));
    assert_eq!(o.borrows[0].borrowed_amount_sf, 0);
    for i in 0..7u8 {
        o.borrow(key(30 + i), 1, RATE_SCALE).unwrap();
    }
    assert_eq!(o.borrow(key(99), 1, RATE_SCALE), Err(LendingError::ObligationBorrowsFull));
    assert_eq!(o.find_or_add_borrow(key(99)), Err(LendingError::ObligationBorrowsFull));
    assert_eq!(o.find_borrow(key(33)), Ok(4));
    assert_eq!(o.find_borrow(key(99)), Err(LendingError::BorrowNotFound));
}

#[test]
fn deposit_errors() {
    let mut o = fresh_obligation();
    assert_eq!(o.deposit(key(10), 0), Err(LendingError::InvalidAmount));
    o.deposit(key(10), u64::MAX).unwrap();
    assert_eq!(o.deposit(key(10), 1), Err(LendingError::MathOverflow));
    assert_eq!(o.withdraw(key(11), 1), Err(LendingError::DepositNotFound));
    assert_eq!(o.find_deposit(key(11)), Err(LendingError::DepositNotFound));
    assert_eq!(o.find_or_add_deposit(key(11)), Ok(1));
    assert_eq!(o.find_or_add_deposit(key(10)), Ok(0));
    assert_eq!(o.withdraw(key(10), 0), Err(LendingError::InvalidAmount));
}

// ── health ────────────────────────────────────────────────────────────────────

fn valued(collateral: u128, debt: u128) -> Obligation {
    let mut o = fresh_obligation();
    o.deposit(key(10), 1).unwrap();
    o.borrow(key(20), 1, RATE_SCALE).unwrap();
    o.deposits[0].market_value_sf = collateral;
    o.borrows[0].market_value_sf = debt;
    o
}

#[test]
fn healthy_iff_factor_at_least_one() {
    let o = valued(8, 8);
    assert!(o.is_healthy());
    assert_eq!(o.health_factor(), Some(RATE_SCALE));
    let o = valued(7, 8);
    assert!(!o.is_healthy());
    assert_eq!(o.health_factor(), Some(7 * RATE_SCALE / 8));
    let o = valued(3, 0);
    assert!(o.is_healthy());
    assert_eq!(o.health_factor(), None);
}

#[test]
fn health_factor_of_huge_collateral_saturates() {
    let o = valued(u128::MAX, 1);
    assert_eq!(o.health_factor(), Some(u128::MAX));
    let o = valued(u128::MAX, u128::MAX / 2);
    assert_eq!(o.health_factor(), Some(2 * RATE_SCALE));
    assert!(o.is_healthy());
}

#[test]
fn values_sum_over_counted_slots() {
    let mut o = valued(5, 6);
    o.deposit(key(11), 1).unwrap();
    o.deposits[1].market_value_sf = 10;
    assert_eq!(o.collateral_value_sf(), Some(15));
    assert_eq!(o.borrow_value_sf(), Some(6));
    o.deposits[1].market_value_sf = u128::MAX;
    assert_eq!(o.collateral_value_sf(), None);
}

// ── reserve laws ──────────────────────────────────────────────────────────────

#[test]
fn liquidity_round_trips() {
    let mut l = liquidity();
    l.deposit(1_000).unwrap();
    let before = l;
    l.deposit(250).unwrap();
    l.withdraw(250).unwrap();
    assert_eq!(l.available_amount, before.available_amount);
    l.borrow(400).unwrap();
    assert_eq!(l.total_supply(), Ok(1_000));
    l.repay(400).unwrap();
    assert_eq!(l.available_amount, 1_000);
    assert_eq!(l.borrowed_amount_sf, 0);
    assert_eq!(l.total_supply(), Ok(1_000));
}

#[test]
fn liquidity_errors() {
    let mut l = liquidity();
    l.deposit(u64::MAX).unwrap();
    assert_eq!(l.deposit(1), Err(LendingError::MathOverflow));
    assert_eq!(l.repay(1), Err(LendingError::MathOverflow));
    let mut l = liquidity();
    assert_eq!(l.borrow(1), Err(LendingError::InsufficientLiquidity));
    assert_eq!(l.withdraw(1), Err(LendingError::InsufficientLiquidity));
    l.accumulated_protocol_fees = 5;
    assert_eq!(l.total_supply(), Err(LendingError::MathOverflow));
}

#[test]
fn accrual_formula_exact_values() {
    let mut l = liquidity();
    l.deposit(1_000_000).unwrap();
    l.borrow(1_000_000).unwrap();
    // 10% a year over a whole year: rate = 1000 × 63_072_000 × 1e12 / 63_072_000 / 10_000 = 1e11
    l.accured_interest(1000, SLOTS_PER_YEAR, 500).unwrap();
    assert_eq!(l.borrowed_amount_sf, 1_100_000);
    assert_eq!(l.accumulated_protocol_fees, 5_000);
    assert_eq!(l.cumulative_borrow_rate_sf, RATE_SCALE + RATE_SCALE / 10);
    assert_eq!(l.total_supply(), Ok(1_095_000));
}

#[test]
fn accrual_errors() {
    let mut l = liquidity();
    assert_eq!(l.accured_interest(1000, 0, 500), Err(LendingError::ZeroSlotsElapsed));
    assert_eq!(l.accured_interest(0, 10, 500), Err(LendingError::BorrowRateZeroFound));
    l.borrowed_amount_sf = u128::MAX;
    assert_eq!(l.accured_interest(10_000, SLOTS_PER_YEAR, 0), Err(LendingError::MathOverflow));
}

#[test]
fn rate_curve_is_monotone_and_bounded() {
    let config = reserve().config;
    let mut last = 0u16;
    for util in (0..=10_000u16).step_by(250) {
        let rate = config.borrow_rate(util).unwrap();
        assert!(rate >= 200 && rate <= 10_000);
        assert!(rate >= last);
        last = rate;
    }
    assert_eq!(config.borrow_rate(0), Ok(200));
    assert_eq!(config.borrow_rate(8000), Ok(2000));
    assert_eq!(config.borrow_rate(10_000), Ok(10_000));
}

#[test]
fn config_validation_and_atomic_update() {
    let mut config: ReserveConfig = reserve().config;
    let before = config;
    let mut bad = config;
    bad.liquidation_threshold_pct = 101;
    bad.loan_to_value_pct = 90;
    assert_eq!(bad.validate(), Err(LendingError::InvalidConfig));
    assert_eq!(config.update(bad), Err(LendingError::InvalidConfig));
    assert_eq!(config.liquidation_threshold_pct, before.liquidation_threshold_pct);
    let mut good = config;
    good.min_borrow_rate_bps = 100;
    assert_eq!(config.update(good), Ok(()));
    assert_eq!(config.min_borrow_rate_bps, 100);
    assert!(config.is_active());
    assert!(!config.is_frozen());
    let mut p = params();
    p.optimal_utilization_bps = 10_001;
    assert_eq!(config.init(p), Err(LendingError::InvalidConfig));
}

#[test]
fn exchange_round_trip_never_gains() {
    let rate = CollateralExchangeRate { collateral_supply: 97, total_liquidity: 113 };
    for amount in [1u64, 2, 3, 50, 999, 123_456] {
        let c = rate.liquidity_to_collateral(amount).unwrap();
        let back = rate.collateral_to_liquidity(c).unwrap();
        assert!(back <= amount);
    }
    let empty = CollateralExchangeRate { collateral_supply: 0, total_liquidity: 0 };
    assert_eq!(empty.collateral_to_liquidity(1), Err(LendingError::MathOverflow));
    assert_eq!(empty.liquidity_to_collateral(1), Err(LendingError::MathOverflow));
}

#[test]
fn redeem_after_deposit_never_gains() {
    let mut r = reserve();
    r.deposit_liquidity(1000).unwrap();
    r.borrow(600).unwrap();
    r.accrue_interest(100 + SLOTS_PER_YEAR).unwrap();
    let minted = r.deposit_liquidity(777).unwrap();
    let paid = r.redeem_collateral(minted).unwrap();
    assert!(paid <= 777);
    assert!(minted < 777, "cTokens are worth more than a token after interest");
}

#[test]
fn deposits_and_redemptions_never_dilute() {
    let mut r = reserve();
    r.deposit_liquidity(1000).unwrap();
    r.borrow(600).unwrap();
    r.accrue_interest(100 + SLOTS_PER_YEAR).unwrap();
    for amount in [1u64, 7, 333, 777] {
        let s0 = r.liquidity.total_supply().unwrap();
        let m0 = r.collateral.mint_total_supply as u128;
        r.deposit_liquidity(amount).unwrap();
        let s1 = r.liquidity.total_supply().unwrap();
        let m1 = r.collateral.mint_total_supply as u128;
        assert!(s1 * m0 >= s0 * m1);
    }
    for ctokens in [1u64, 5, 250] {
        let s0 = r.liquidity.total_supply().unwrap();
        let m0 = r.collateral.mint_total_supply as u128;
        r.redeem_collateral(ctokens).unwrap();
        let s1 = r.liquidity.total_supply().unwrap();
        let m1 = r.collateral.mint_total_supply as u128;
        assert!(s1 * m0 >= s0 * m1);
    }
}

#[test]
fn accrual_happens_once_per_slot() {
    let mut r = reserve();
    r.deposit_liquidity(1_000_000).unwrap();
    r.borrow(800_000).unwrap();
    r.accrue_interest(100 + SLOTS_PER_YEAR).unwrap();
    let once = r;
    r.accrue_interest(100 + SLOTS_PER_YEAR).unwrap();
    assert_eq!(r.liquidity.borrowed_amount_sf, once.liquidity.borrowed_amount_sf);
    assert_eq!(r.liquidity.cumulative_borrow_rate_sf, once.liquidity.cumulative_borrow_rate_sf);
    assert_eq!(r.last_update_slot, once.last_update_slot);
}

#[test]
fn reserve_repay_undoes_borrow_and_errors() {
    let mut r = reserve();
    r.deposit_liquidity(1000).unwrap();
    let before = r;
    r.borrow(300).unwrap();
    r.repay(300).unwrap();
    assert_eq!(r.liquidity.available_amount, before.liquidity.available_amount);
    assert_eq!(r.liquidity.borrowed_amount_sf, before.liquidity.borrowed_amount_sf);
    assert_eq!(r.borrow(1001), Err(LendingError::InsufficientLiquidity));
    assert_eq!(r.redeem_collateral(1001), Err(LendingError::InsufficientCollateral));
    assert_eq!(r.deposit_liquidity(999_001), Err(LendingError::DepositLimitExceeded));
    r.config.borrow_limit = 0;
    assert_eq!(r.borrow(1), Err(LendingError::BorrowLimitExceeded));
    assert!(r.rate_is_computable());
    assert_eq!(r.current_borrow_rate(), Ok(200));
}

#[test]
fn collateral_mint_and_burn() {
    let mut r = reserve();
    r.collateral.mint(10).unwrap();
    assert_eq!(r.collateral.burn(11), Err(LendingError::InsufficientCollateral));
    r.collateral.burn(4).unwrap();
    assert_eq!(r.collateral.mint_total_supply, 6);
    assert_eq!(r.collateral.mint(u64::MAX), Err(LendingError::MathOverflow));
    let rate = r.collateral_exchange_rate();
    assert_eq!(rate.collateral_supply, 1);
    assert_eq!(rate.total_liquidity, 1);
}

// ── confidential position ─────────────────────────────────────────────────────

#[test]
fn position_remove_undoes_add() {
    let p = init_position_v2();
    assert_eq!((p.collateral_tokens, p.borrow_tokens), (0, 0));
    let p = add_collateral_v2(40, PrivatePosition { collateral_tokens: 2, borrow_tokens: 5 });
    assert_eq!(p.collateral_tokens, 42);
    let p = remove_collateral_2(40, p);
    assert_eq!((p.collateral_tokens, p.borrow_tokens), (2, 5));
    let p = add_borrow_v2(10, p);
    assert_eq!(p.borrow_tokens, 15);
    let p = remove_borrow_2(10, p);
    assert_eq!(p.borrow_tokens, 5);
    let p = remove_borrow_2(100, p);
    assert_eq!(p.borrow_tokens, 0, "removal stops at zero");
    let p = remove_collateral_2(100, p);
    assert_eq!(p.collateral_tokens, 0, "removal stops at zero");
}

#[test]
fn confidential_health_check_formula() {
    // 1000 cTokens × 1.02 × 80% = 816 tokens at $100 = 81_600 cents of collateral
    let p = PrivatePosition { collateral_tokens: 1000, borrow_tokens: 816 };
    assert!(check_health_v2(p, 10_200, 10_000, 10_000, 8_000));
    let p = PrivatePosition { collateral_tokens: 1000, borrow_tokens: 817 };
    assert!(!check_health_v2(p, 10_200, 10_000, 10_000, 8_000));
}

#[test]
fn refused_operations_keep_the_steps_already_done() {
    // repay: the debt is reduced before the available amount overflows
    let mut l = liquidity();
    l.deposit(u64::MAX).unwrap();
    l.borrowed_amount_sf = 10;
    assert_eq!(l.repay(4), Err(LendingError::MathOverflow));
    assert_eq!(l.borrowed_amount_sf, 6);
    assert_eq!(l.available_amount, u64::MAX);
    // redeem: the cTokens are burnt before the payout runs short
    let mut r = reserve();
    r.deposit_liquidity(1000).unwrap();
    r.borrow(800).unwrap();
    assert_eq!(r.redeem_collateral(500), Err(LendingError::InsufficientLiquidity));
    assert_eq!(r.collateral.mint_total_supply, 500);
    assert_eq!(r.liquidity.available_amount, 200);
    // config: invalid parameters are stored, then reported
    let mut config = reserve().config;
    let mut p = params();
    p.loan_to_value_pct = 95;
    assert_eq!(config.init(p), Err(LendingError::InvalidConfig));
    assert_eq!(config.loan_to_value_pct, 95);
}
