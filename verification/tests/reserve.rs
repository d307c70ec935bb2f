use veilvault::constants::{MAX_PROTOCOL_FEE_BPS, RATE_SCALE, SLOTS_PER_YEAR};
use veilvault::pubkey::Pubkey;
use veilvault::reserve::Reserve;
use veilvault::reserve_collateral::{CollateralExchangeRate, NewReserveCollateralParams, ReserveCollateral};
use veilvault::reserve_config::{InitReserveConfigParams, ReserveConfig};
use veilvault::reserve_liquidity::{NewReserveLiquidityParams, ReserveLiquidity};

fn base_config() -> ReserveConfig {
    ReserveConfig {
        deposit_limit: 1_000_000,
        borrow_limit: 800_000,
        min_borrow_rate_bps: 200,
        optimal_borrow_rate_bps: 2000,
        max_borrow_rate_bps: 10000,
        optimal_utilization_bps: 8000,
        liquidation_bonus_pct: 500,
        protocol_fee: 500,
        status: 0,
        loan_to_value_pct: 75,
        liquidation_threshold_pct: 80,
        padding: 0,
        pyth_oracle: Pubkey::default(),
    }
}

// --- validate ---

#[test]
fn test_validate_valid_config() {
    assert!(base_config().validate().is_ok());
}

#[test]
fn test_validate_ltv_must_be_below_liquidation_threshold() {
    let mut config = base_config();
    config.loan_to_value_pct = 80;
    assert!(config.validate().is_err());
}

#[test]
fn test_validate_borrow_rates_must_be_ordered() {
    let mut config = base_config();
    config.optimal_borrow_rate_bps = 100;
    assert!(config.validate().is_err());
}

#[test]
fn test_validate_protocol_fee_exceeds_max() {
    let mut config = base_config();
    config.protocol_fee = MAX_PROTOCOL_FEE_BPS + 1;
    assert!(config.validate().is_err());
}

// --- borrow_rate ---

#[test]
fn test_borrow_rate_at_zero_utilization() {
    let rate = base_config().borrow_rate(0).unwrap();
    assert_eq!(rate, 200);
}

#[test]
fn test_borrow_rate_at_optimal_utilization() {
    let rate = base_config().borrow_rate(8000).unwrap();
    assert_eq!(rate, 2000);
}

#[test]
fn test_borrow_rate_at_max_utilization() {
    let rate = base_config().borrow_rate(10000).unwrap();
    assert_eq!(rate, 10000);
}

#[test]
fn test_borrow_rate_midpoint_segment1() {
    // rate = 200 + 4000 * (2000 - 200) / 8000 = 200 + 900 = 1100
    let rate = base_config().borrow_rate(4000).unwrap();
    assert_eq!(rate, 1100);
}

#[test]
fn test_borrow_rate_midpoint_segment2() {
    // rate = 2000 + (9000-8000) * (10000-2000) / (10000-8000) = 2000 + 4000 = 6000
    let rate = base_config().borrow_rate(9000).unwrap();
    assert_eq!(rate, 6000);
}

// --- CollateralExchangeRate ---

#[test]
fn test_exchange_rate_one_to_one() {
    let rate = CollateralExchangeRate {
        collateral_supply: 100,
        total_liquidity: 100,
    };
    assert_eq!(rate.collateral_to_liquidity(50).unwrap(), 50);
    assert_eq!(rate.liquidity_to_collateral(50).unwrap(), 50);
}

#[test]
fn test_exchange_rate_grown() {
    let rate = CollateralExchangeRate {
        collateral_supply: 100,
        total_liquidity: 108,
    };
    assert_eq!(rate.collateral_to_liquidity(50).unwrap(), 54);
}

#[test]
fn test_exchange_rate_deposit_mints_fewer_ctokens() {
    let rate = CollateralExchangeRate {
        collateral_supply: 100,
        total_liquidity: 108,
    };
    assert_eq!(rate.liquidity_to_collateral(108).unwrap(), 100);
}

#[test]
fn test_empty_pool_returns_initial_rate() {
    let collateral = ReserveCollateral {
        mint_pda: Pubkey::default(),
        mint_total_supply: 0,
        supply_vault_pda: Pubkey::default(),
        padding1: [0; 64],
        padding2: [0; 64],
    };
    let rate = collateral.exchange_rate(0);
    assert_eq!(rate.collateral_to_liquidity(50).unwrap(), 50);
}

// --- ReserveLiquidity ---

fn base_liquidity() -> ReserveLiquidity {
    ReserveLiquidity {
        borrowed_amount_sf: 0,
        cumulative_borrow_rate_sf: RATE_SCALE,
        accumulated_protocol_fees: 0,
        mint: Pubkey::default(),
        supply_vault: Pubkey::default(),
        fee_vault: Pubkey::default(),
        available_amount: 0,
        market_price_sf: 0,
        price_last_updated_ts: 0,
        padding: [0; 8],
    }
}

#[test]
fn test_deposit_increases_available() {
    let mut liq = base_liquidity();
    liq.deposit(1000).unwrap();
    assert_eq!(liq.available_amount, 1000);
}

#[test]
fn test_borrow_moves_amount_to_borrowed() {
    let mut liq = base_liquidity();
    liq.deposit(1000).unwrap();
    liq.borrow(800).unwrap();
    assert_eq!(liq.available_amount, 200);
    assert_eq!(liq.borrowed_amount_sf, 800);
}

#[test]
fn test_borrow_fails_when_insufficient_liquidity() {
    let mut liq = base_liquidity();
    liq.deposit(500).unwrap();
    assert!(liq.borrow(600).is_err());
}

#[test]
fn test_repay_restores_available() {
    let mut liq = base_liquidity();
    liq.deposit(1000).unwrap();
    liq.borrow(800).unwrap();
    liq.repay(800).unwrap();
    assert_eq!(liq.available_amount, 1000);
    assert_eq!(liq.borrowed_amount_sf, 0);
}

#[test]
fn test_withdraw_decreases_available() {
    let mut liq = base_liquidity();
    liq.deposit(1000).unwrap();
    liq.withdraw(400).unwrap();
    assert_eq!(liq.available_amount, 600);
}

#[test]
fn test_withdraw_fails_when_insufficient() {
    let mut liq = base_liquidity();
    liq.deposit(100).unwrap();
    assert!(liq.withdraw(200).is_err());
}

#[test]
fn test_total_supply_is_available_plus_borrowed() {
    let mut liq = base_liquidity();
    liq.deposit(1000).unwrap();
    liq.borrow(600).unwrap();
    assert_eq!(liq.total_supply().unwrap(), 1000);
}

#[test]
fn test_utilization_rate_zero_when_nothing_borrowed() {
    let mut liq = base_liquidity();
    liq.deposit(1000).unwrap();
    assert_eq!(liq.utilization_rate().unwrap(), 0);
}

#[test]
fn test_utilization_rate_80_percent() {
    let mut liq = base_liquidity();
    liq.deposit(1000).unwrap();
    liq.borrow(800).unwrap();
    assert_eq!(liq.utilization_rate().unwrap(), 80);
}

#[test]
fn test_utilization_rate_zero_when_empty_pool() {
    let liq = base_liquidity();
    assert_eq!(liq.utilization_rate().unwrap(), 0);
}

#[test]
fn test_accrue_interest_fails_on_zero_slots() {
    let mut liq = base_liquidity();
    assert!(liq.accured_interest(1000, 0, 500).is_err());
}

#[test]
fn test_accrue_interest_fails_on_zero_rate() {
    let mut liq = base_liquidity();
    assert!(liq.accured_interest(0, 100, 500).is_err());
}

#[test]
fn reserve_test_accrue_interest_grows_debt() {
    let mut liq = base_liquidity();
    liq.deposit(1_000_000).unwrap();
    liq.borrow(1_000_000).unwrap();

    let debt_before = liq.borrowed_amount_sf;
    liq.accured_interest(1000, SLOTS_PER_YEAR, 500).unwrap();

    assert!(liq.borrowed_amount_sf > debt_before);
}

#[test]
fn test_accrue_interest_grows_cumulative_rate() {
    let mut liq = base_liquidity();
    liq.deposit(1_000_000).unwrap();
    liq.borrow(500_000).unwrap();

    let rate_before = liq.cumulative_borrow_rate_sf;
    liq.accured_interest(500, SLOTS_PER_YEAR, 500).unwrap();

    assert!(liq.cumulative_borrow_rate_sf > rate_before);
}

// --- Reserve ---

fn base_reserve() -> Reserve {
    let mut reserve = Reserve::default();
    reserve.last_update_slot = 100;

    reserve.liquidity.init(NewReserveLiquidityParams {
        mint: Pubkey::default(),
        supply_vault: Pubkey::default(),
        fee_vault: Pubkey::default(),
    });

    reserve.collateral.init(NewReserveCollateralParams {
        mint_pda: Pubkey::default(),
        supply_vault_pda: Pubkey::default(),
    });

    reserve
        .config
        .init(InitReserveConfigParams {
            status: 0,
            min_borrow_rate_bps: 200,
            optimal_borrow_rate_bps: 2000,
            max_borrow_rate_bps: 10000,
            optimal_utilization_bps: 8000,
            loan_to_value_pct: 75,
            liquidation_threshold_pct: 80,
            liquidation_bonus_pct: 500,
            deposit_limit: 1_000_000,
            borrow_limit: 800_000,
            protocol_fee: 500,
            pyth_oracle: Pubkey::default(),
        })
        .unwrap();

    reserve
}

#[test]
fn test_reserve_deposit_liquidity_mints_collateral() {
    let mut reserve = base_reserve();
    let collateral_minted = reserve.deposit_liquidity(1000).unwrap();
    assert_eq!(collateral_minted, 1000);
    assert_eq!(reserve.liquidity.available_amount, 1000);
    assert_eq!(reserve.collateral.mint_total_supply, 1000);
}

#[test]
fn test_reserve_deposit_fails_when_limit_crossed() {
    let mut reserve = base_reserve();
    assert!(reserve.deposit_liquidity(1_000_001).is_err());
}

#[test]
fn test_reserve_redeem_collateral_returns_liquidity() {
    let mut reserve = base_reserve();
    reserve.deposit_liquidity(1000).unwrap();
    let liquidity_returned = reserve.redeem_collateral(500).unwrap();
    assert_eq!(liquidity_returned, 500);
    assert_eq!(reserve.collateral.mint_total_supply, 500);
    assert_eq!(reserve.liquidity.available_amount, 500);
}

#[test]
fn test_reserve_borrow_moves_liquidity() {
    let mut reserve = base_reserve();
    reserve.deposit_liquidity(1000).unwrap();
    reserve.borrow(600).unwrap();
    assert_eq!(reserve.liquidity.available_amount, 400);
    assert_eq!(reserve.liquidity.borrowed_amount_sf, 600);
}

#[test]
fn test_reserve_borrow_fails_when_limit_crossed() {
    let mut reserve = base_reserve();
    reserve.deposit_liquidity(1_000_000).unwrap();
    reserve.borrow(800_000).unwrap();
    assert!(reserve.borrow(1).is_err());
}

#[test]
fn test_reserve_repay_restores_liquidity() {
    let mut reserve = base_reserve();
    reserve.deposit_liquidity(1000).unwrap();
    reserve.borrow(600).unwrap();
    reserve.repay(600).unwrap();
    assert_eq!(reserve.liquidity.borrowed_amount_sf, 0);
    assert_eq!(reserve.liquidity.available_amount, 1000);
}

#[test]
fn test_reserve_accrue_interest_updates_slot() {
    let mut reserve = base_reserve();
    reserve.deposit_liquidity(1_000_000).unwrap();
    reserve.borrow(800_000).unwrap();
    reserve.accrue_interest(100 + SLOTS_PER_YEAR).unwrap();
    assert_eq!(reserve.last_update_slot, 100 + SLOTS_PER_YEAR);
}

#[test]
fn test_reserve_accrue_interest_skips_when_no_slots_elapsed() {
    let mut reserve = base_reserve();
    reserve.deposit_liquidity(1_000_000).unwrap();
    reserve.borrow(500_000).unwrap();
    let debt_before = reserve.liquidity.borrowed_amount_sf;
    reserve.accrue_interest(100).unwrap();
    assert_eq!(reserve.liquidity.borrowed_amount_sf, debt_before);
}

#[test]
fn test_reserve_accrue_interest_grows_debt() {
    let mut reserve = base_reserve();
    reserve.deposit_liquidity(1_000_000).unwrap();
    reserve.borrow(800_000).unwrap();
    let debt_before = reserve.liquidity.borrowed_amount_sf;
    reserve.accrue_interest(100 + SLOTS_PER_YEAR).unwrap();
    assert!(reserve.liquidity.borrowed_amount_sf > debt_before);
}

#[test]
fn test_reserve_deposit_limit_crossed() {
    let mut reserve = base_reserve();
    reserve.deposit_liquidity(1_000_000).unwrap();
    assert!(reserve.deposit_limit_crossed());
}

#[test]
fn test_reserve_borrow_limit_crossed() {
    let mut reserve = base_reserve();
    reserve.deposit_liquidity(1_000_000).unwrap();
    reserve.borrow(800_000).unwrap();
    assert!(reserve.borrow_limit_crossed());
}

#[test]
fn test_reserve_utilization_rate_after_borrow() {
    let mut reserve = base_reserve();
    reserve.deposit_liquidity(1000).unwrap();
    reserve.borrow(800).unwrap();
    assert_eq!(reserve.utilization_rate().unwrap(), 80);
}
