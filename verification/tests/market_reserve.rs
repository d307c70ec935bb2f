use veilvault::error::LendingError;
use veilvault::instructions::{
    add_reserve, init_obligation, initialize_market, AddReserveArgs, InitializeMarketArgs,
    ReserveAccountKeys,
};
use veilvault::lending_market::LendingMarket;
use veilvault::obligation::Obligation;
use veilvault::pubkey::Pubkey;
use veilvault::reserve::Reserve;
use veilvault::reserve_config::InitReserveConfigParams;

fn key(seed: u8) -> Pubkey {
    Pubkey::new_from_array([seed; 32])
}

fn default_config(pyth_oracle: Pubkey) -> InitReserveConfigParams {
    InitReserveConfigParams {
        status: 0,
        min_borrow_rate_bps: 200,
        optimal_borrow_rate_bps: 2_000,
        max_borrow_rate_bps: 10_000,
        optimal_utilization_bps: 8_000,
        loan_to_value_pct: 75,
        liquidation_threshold_pct: 80,
        liquidation_bonus_pct: 500,
        deposit_limit: u64::MAX / 2,
        borrow_limit: u64::MAX / 2,
        protocol_fee: 50,
        pyth_oracle,
    }
}

fn keys() -> ReserveAccountKeys {
    ReserveAccountKeys {
        reserve_mint: key(10),
        liquidity_vault: key(11),
        fee_vault: key(12),
        collateral_mint: key(13),
        collateral_supply_vault: key(14),
        lending_market: key(2),
    }
}

/// A market of owner `key(1)` with one USDC-like reserve priced by `key(20)`.
fn setup_env() -> (LendingMarket, Reserve) {
    let mut market = LendingMarket::default();
    initialize_market(
        &mut market,
        key(1),
        255,
        InitializeMarketArgs { quote_currency: [0u8; 32], protocol_fee_bps: 50 },
    )
    .expect("initialize_market");
    let mut reserve = Reserve::default();
    add_reserve(&market, &mut reserve, keys(), 254, 1, AddReserveArgs { config: default_config(key(20)) })
        .expect("add_reserve");
    (market, reserve)
}

#[test]
fn test_initialize_market_creates_account() {
    let (market, _) = setup_env();
    assert_eq!(market.version, 1, "lending market should be initialized");
    assert_eq!(market.owner, key(1));
    assert_eq!(market.bump, 255);
    assert_eq!(market.protocol_fee_bps, 50);
    assert!(!market.emergency_pause);
}

#[test]
fn test_add_reserve_creates_all_pdas() {
    let (_, reserve) = setup_env();
    assert_eq!(reserve.version, 1, "reserve missing");
    assert_eq!(reserve.liquidity.supply_vault, key(11), "liquidity_vault missing");
    assert_eq!(reserve.liquidity.fee_vault, key(12), "fee_vault missing");
    assert_eq!(reserve.collateral.mint_pda, key(13), "collateral_mint missing");
    assert_eq!(reserve.collateral.supply_vault_pda, key(14), "collateral_supply_vault missing");
    assert_eq!(reserve.liquidity.mint, key(10));
    assert_eq!(reserve.lending_market, key(2));
    assert_eq!(reserve.last_update_slot, 1);
}

#[test]
fn test_duplicate_market_fails() {
    let (mut market, _) = setup_env();
    let before = market;
    let result = initialize_market(
        &mut market,
        key(1),
        255,
        InitializeMarketArgs { quote_currency: [0u8; 32], protocol_fee_bps: 50 },
    );
    assert_eq!(result, Err(LendingError::AlreadyInitialized), "duplicate initialize_market should fail");
    assert_eq!(market.version, before.version);
}

#[test]
fn test_initialize_market_rejects_high_fee() {
    let mut market = LendingMarket::default();
    let result = initialize_market(
        &mut market,
        key(1),
        255,
        InitializeMarketArgs { quote_currency: [0u8; 32], protocol_fee_bps: 9999 },
    );
    assert_eq!(result, Err(LendingError::InvalidFee), "fee > 1000 bps should be rejected");
    assert_eq!(market.version, 0);
}

#[test]
fn test_init_obligation_duplicate_fails() {
    let mut obligation = Obligation::default();
    init_obligation(&mut obligation, key(5), key(2), 7).expect("first init_obligation");
    let result = init_obligation(&mut obligation, key(5), key(2), 7);
    assert_eq!(result, Err(LendingError::AlreadyInitialized), "duplicate init_obligation should fail");
}

#[test]
fn test_add_reserve_twice_fails() {
    let (market, mut reserve) = setup_env();
    let result = add_reserve(&market, &mut reserve, keys(), 254, 5, AddReserveArgs { config: default_config(key(20)) });
    assert_eq!(result, Err(LendingError::AlreadyInitialized));
    assert_eq!(reserve.last_update_slot, 1);
}
