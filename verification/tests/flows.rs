use veilvault::constants::RATE_SCALE;
use veilvault::error::LendingError;
use veilvault::instructions::{
    add_reserve, borrow, deposit, deposit_collateral, init_obligation, initialize_market,
    liquidate, refresh_obligation, refresh_reserve, repay, set_pause, update_reserve_config,
    withdraw, withdraw_collateral, AddReserveArgs, InitializeMarketArgs, ReserveAccountKeys,
};
use veilvault::lending_market::LendingMarket;
use veilvault::obligation::Obligation;
use veilvault::prices::{PriceFeedMessage, PriceUpdate, VerificationLevel};
use veilvault::pubkey::Pubkey;
use veilvault::reserve::Reserve;
use veilvault::reserve_config::InitReserveConfigParams;

/// Starting unix timestamp of every scenario.
const BASE_TIMESTAMP: i64 = 1_700_000_000;

fn key(seed: u8) -> Pubkey {
    Pubkey::new_from_array([seed; 32])
}

fn config(status: u8, pyth_oracle: Pubkey) -> InitReserveConfigParams {
    InitReserveConfigParams {
        status,
        min_borrow_rate_bps: 200,
        optimal_borrow_rate_bps: 2_000,
        max_borrow_rate_bps: 10_000,
        optimal_utilization_bps: 8_000,
        loan_to_value_pct: 75,
        liquidation_threshold_pct: 80,
        liquidation_bonus_pct: 500,
        deposit_limit: u64::MAX / 2,
        borrow_limit: u64::MAX / 2,
        protocol_fee: 50,
        pyth_oracle,
    }
}

/// A Pyth update for `price_usd_e8 / 10^8` USD with 0.1% confidence, fully verified.
fn price_update(price_usd_e8: i64, publish_time: i64) -> PriceUpdate {
    let conf = (price_usd_e8 as u64) / 1_000;
    PriceUpdate {
        write_authority: Pubkey::new_from_array([0u8; 32]),
        verification_level: VerificationLevel::Full,
        price_message: PriceFeedMessage {
            feed_id: [0u8; 32],
            price: price_usd_e8,
            conf,
            exponent: -8,
            publish_time,
            prev_publish_time: publish_time,
            ema_price: price_usd_e8,
            ema_conf: conf,
        },
        posted_slot: 1,
    }
}

/// One market with reserves, a clock, and the token balances of the vaults.
struct Env {
    market: LendingMarket,
    market_key: Pubkey,
    slot: u64,
    now: i64,
    reserves: Vec<(Pubkey, Pubkey, Reserve)>,
}

impl Env {
    /// A market of owner `key(1)` with one USDC-like reserve priced at $1.00.
    fn new() -> Env {
        let mut market = LendingMarket::default();
        initialize_market(
            &mut market,
            key(1),
            255,
            InitializeMarketArgs { quote_currency: [0u8; 32], protocol_fee_bps: 50 },
        )
        .expect("initialize_market");
        let mut env = Env { market, market_key: key(2), slot: 1, now: BASE_TIMESTAMP, reserves: Vec::new() };
        env.add_reserve(10, 20);
        env
    }

    /// Adds a reserve at address `key(seed)` priced by oracle `key(oracle)`; returns its index.
    fn add_reserve(&mut self, seed: u8, oracle: u8) -> usize {
        let keys = ReserveAccountKeys {
            reserve_mint: key(seed + 100),
            liquidity_vault: key(seed + 101),
            fee_vault: key(seed + 102),
            collateral_mint: key(seed + 103),
            collateral_supply_vault: key(seed + 104),
            lending_market: self.market_key,
        };
        let mut reserve = Reserve::default();
        add_reserve(&self.market, &mut reserve, keys, 254, self.slot, AddReserveArgs { config: config(0, key(oracle)) })
            .expect("add_reserve");
        self.reserves.push((key(seed), key(oracle), reserve));
        self.reserves.len() - 1
    }

    fn reserve(&self, i: usize) -> Reserve {
        self.reserves[i].2
    }

    fn reserve_key(&self, i: usize) -> Pubkey {
        self.reserves[i].0
    }

    fn advance_slots(&mut self, slots: u64) {
        self.slot += slots;
        self.now += slots as i64;
    }

    /// Publishes $1.00 now and refreshes reserve `i`.
    fn refresh_reserve(&mut self, i: usize) -> Result<(), LendingError> {
        let update = price_update(100_000_000, self.now);
        let (_, oracle, mut reserve) = self.reserves[i];
        let r = refresh_reserve(&mut reserve, self.market_key, oracle, &Some(update), self.slot, self.now);
        self.reserves[i].2 = reserve;
        r
    }

    fn deposit(&mut self, i: usize, amount: u64) -> Result<u64, LendingError> {
        let mut reserve = self.reserves[i].2;
        let r = deposit(&self.market, &mut reserve, self.slot, amount);
        self.reserves[i].2 = reserve;
        r
    }

    fn withdraw(&mut self, i: usize, ctokens: u64) -> Result<u64, LendingError> {
        let mut reserve = self.reserves[i].2;
        let r = withdraw(&self.market, &mut reserve, self.slot, ctokens);
        self.reserves[i].2 = reserve;
        r
    }

    fn new_obligation(&self, owner: u8) -> Obligation {
        let mut o = Obligation::default();
        init_obligation(&mut o, key(owner), self.market_key, 3).expect("init_obligation");
        o
    }

    fn deposit_collateral(&self, i: usize, o: &mut Obligation, amount: u64) -> Result<(), LendingError> {
        deposit_collateral(&self.market, &self.reserve(i), o, self.reserve_key(i), amount)
    }

    fn withdraw_collateral(&self, i: usize, o: &mut Obligation, amount: u64) -> Result<(), LendingError> {
        withdraw_collateral(&self.market, o, self.reserve_key(i), self.slot, amount)
    }

    fn refresh_obligation(&self, o: &mut Obligation) -> Result<(), LendingError> {
        let accounts: Vec<(Pubkey, Reserve)> = self.reserves.iter().map(|r| (r.0, r.2)).collect();
        refresh_obligation(o, &accounts, self.slot, self.now)
    }

    fn borrow(&mut self, i: usize, o: &mut Obligation, amount: u64) -> Result<(), LendingError> {
        let mut reserve = self.reserves[i].2;
        let r = borrow(&self.market, &mut reserve, o, self.reserves[i].0, self.slot, amount);
        self.reserves[i].2 = reserve;
        r
    }

    fn repay(&mut self, i: usize, o: &mut Obligation, amount: u64) -> Result<(), LendingError> {
        let mut reserve = self.reserves[i].2;
        let r = repay(&mut reserve, o, self.reserves[i].0, self.slot, amount);
        self.reserves[i].2 = reserve;
        r
    }

    /// Liquidates against reserve `i` on both sides.
    fn liquidate(&mut self, i: usize, o: &mut Obligation, amount: u64) -> Result<(u64, u64), LendingError> {
        let mut repay_side = self.reserves[i].2;
        let mut withdraw_side = self.reserves[i].2;
        let k = self.reserves[i].0;
        let r = liquidate(&self.market, self.market_key, &mut repay_side, &mut withdraw_side, o, k, k, self.slot, amount);
        self.reserves[i].2 = repay_side;
        r
    }
}

// ── deposit / withdraw ────────────────────────────────────────────────────────

const DEPOSIT_AMOUNT: u64 = 1_000_000;

#[test]
fn test_deposit_moves_tokens_to_vault() {
    let mut env = Env::new();
    let mut wallet = DEPOSIT_AMOUNT * 2;
    let before = wallet;
    env.deposit(0, DEPOSIT_AMOUNT).expect("deposit");
    wallet -= DEPOSIT_AMOUNT;
    assert_eq!(before - wallet, DEPOSIT_AMOUNT, "underlying tokens should leave user wallet");
    assert_eq!(env.reserve(0).liquidity.available_amount, DEPOSIT_AMOUNT, "tokens should be in liquidity_vault");
}

#[test]
fn test_deposit_mints_ctokens() {
    let mut env = Env::new();
    let minted = env.deposit(0, DEPOSIT_AMOUNT).expect("deposit");
    assert_eq!(minted, DEPOSIT_AMOUNT, "cTokens should be minted 1:1 on first deposit");
    assert_eq!(env.reserve(0).collateral.mint_total_supply, DEPOSIT_AMOUNT);
}

#[test]
fn test_deposit_withdraw_test_deposit_zero_fails() {
    let mut env = Env::new();
    let result = env.deposit(0, 0);
    assert_eq!(result, Err(LendingError::InvalidAmount), "deposit(0) should fail");
}

#[test]
fn test_withdraw_returns_underlying() {
    let mut env = Env::new();
    let ctokens = env.deposit(0, DEPOSIT_AMOUNT).expect("deposit");
    let paid = env.withdraw(0, ctokens).expect("withdraw");
    assert_eq!(env.reserve(0).collateral.mint_total_supply, 0, "all cTokens should be burned");
    assert_eq!(paid, DEPOSIT_AMOUNT, "full underlying should be returned");
    assert_eq!(env.reserve(0).liquidity.available_amount, 0);
}

#[test]
fn test_deposit_withdraw_test_withdraw_more_than_deposited_fails() {
    let mut env = Env::new();
    let ctokens = env.deposit(0, DEPOSIT_AMOUNT).expect("deposit");
    let before = env.reserve(0);
    let result = env.withdraw(0, ctokens + 1);
    assert!(result.is_err(), "withdrawing more cTokens than held should fail");
    assert_eq!(env.reserve(0).collateral.mint_total_supply, before.collateral.mint_total_supply);
}

// ── collateral ────────────────────────────────────────────────────────────────

const COLLATERAL_AMOUNT: u64 = 5_000_000;

#[test]
fn test_deposit_collateral_locks_ctokens_in_vault() {
    let mut env = Env::new();
    let ctokens = env.deposit(0, COLLATERAL_AMOUNT).expect("deposit");
    let mut o = env.new_obligation(5);
    env.deposit_collateral(0, &mut o, COLLATERAL_AMOUNT).expect("deposit_collateral");
    assert_eq!(ctokens - COLLATERAL_AMOUNT, 0, "cTokens should leave user wallet");
    assert_eq!(o.deposits[0].deposited_amount, COLLATERAL_AMOUNT, "cTokens should arrive in collateral_supply_vault");
    assert_eq!(o.deposits[0].deposit_reserve, env.reserve_key(0));
    assert_eq!(o.deposits_count, 1);
}

#[test]
fn test_withdraw_collateral_returns_ctokens() {
    let mut env = Env::new();
    env.deposit(0, COLLATERAL_AMOUNT).expect("deposit");
    let mut o = env.new_obligation(5);
    env.deposit_collateral(0, &mut o, COLLATERAL_AMOUNT).expect("deposit_collateral");
    env.refresh_reserve(0).expect("refresh_reserve");
    env.refresh_obligation(&mut o).expect("refresh_obligation");
    env.withdraw_collateral(0, &mut o, COLLATERAL_AMOUNT).expect("withdraw_collateral");
    assert_eq!(o.deposits_count, 0, "collateral vault should be empty");
    assert!(!o.deposits[0].is_active());
}

#[test]
fn test_withdraw_collateral_fails_when_would_break_health() {
    let mut env = Env::new();
    env.deposit(0, 20_000_000).expect("seed");
    env.deposit(0, COLLATERAL_AMOUNT).expect("deposit");
    let mut o = env.new_obligation(5);
    env.deposit_collateral(0, &mut o, COLLATERAL_AMOUNT).expect("deposit_collateral");
    env.refresh_reserve(0).expect("refresh_reserve");
    env.refresh_obligation(&mut o).expect("refresh_obligation");
    let borrow_at_limit = (COLLATERAL_AMOUNT as u128 * 80 / 100) as u64;
    env.borrow(0, &mut o, borrow_at_limit).expect("borrow at the limit");
    env.advance_slots(1);
    env.refresh_reserve(0).expect("refresh_reserve");
    env.refresh_obligation(&mut o).expect("refresh_obligation");
    let result = env.withdraw_collateral(0, &mut o, 1);
    assert_eq!(
        result,
        Err(LendingError::UnhealthyObligation),
        "withdrawing collateral that would break health should fail"
    );
}

// ── borrow / repay ────────────────────────────────────────────────────────────

const SEED_LIQUIDITY: u64 = 20_000_000;
const COLLATERAL: u64 = 5_000_000;
const BORROW_AMOUNT: u64 = 1_000_000;

/// A borrower with `COLLATERAL` deposited, locked and refreshed.
fn setup_borrower(env: &mut Env) -> Obligation {
    env.deposit(0, COLLATERAL).expect("deposit");
    let mut o = env.new_obligation(5);
    env.deposit_collateral(0, &mut o, COLLATERAL).expect("deposit_collateral");
    env.refresh_obligation(&mut o).expect("refresh_obligation");
    o
}

fn seeded_env() -> Env {
    let mut env = Env::new();
    env.deposit(0, SEED_LIQUIDITY).expect("seed");
    env.refresh_reserve(0).expect("refresh_reserve");
    env
}

#[test]
fn test_borrow_fails_without_collateral() {
    let mut env = seeded_env();
    let mut o = env.new_obligation(5);
    env.refresh_obligation(&mut o).expect("refresh_obligation");
    let result = env.borrow(0, &mut o, BORROW_AMOUNT);
    assert_eq!(result, Err(LendingError::UnhealthyObligation), "borrow without any collateral must fail");
}

#[test]
fn test_borrow_without_refresh_fails() {
    let mut env = seeded_env();
    let mut o = setup_borrower(&mut env);
    env.advance_slots(2);
    let result = env.borrow(0, &mut o, BORROW_AMOUNT);
    assert_eq!(result, Err(LendingError::ObligationStale), "borrow with stale obligation should fail");
}

#[test]
fn test_borrow_and_repay_full_cycle() {
    let mut env = seeded_env();
    let mut o = setup_borrower(&mut env);
    let vault_before = env.reserve(0).liquidity.available_amount;
    let mut wallet: u64 = 0;
    env.borrow(0, &mut o, BORROW_AMOUNT).expect("borrow");
    wallet += BORROW_AMOUNT;
    assert_eq!(wallet, BORROW_AMOUNT, "user should receive borrowed tokens");
    assert_eq!(
        vault_before - env.reserve(0).liquidity.available_amount,
        BORROW_AMOUNT,
        "liquidity vault should decrease by borrow amount"
    );
    env.advance_slots(1);
    let vault_after_borrow = env.reserve(0).liquidity.available_amount;
    env.repay(0, &mut o, BORROW_AMOUNT).expect("repay");
    wallet -= BORROW_AMOUNT;
    assert_eq!(
        env.reserve(0).liquidity.available_amount - vault_after_borrow,
        BORROW_AMOUNT,
        "vault should recover the repaid amount"
    );
    assert_eq!(wallet, 0, "user should be back to the starting balance after full repay");
}

#[test]
fn test_partial_repay_leaves_debt() {
    let mut env = seeded_env();
    let mut o = setup_borrower(&mut env);
    env.borrow(0, &mut o, BORROW_AMOUNT).expect("borrow");
    let half = BORROW_AMOUNT / 2;
    env.repay(0, &mut o, half).expect("repay half");
    assert_eq!(o.borrows[0].borrowed_amount_sf, (BORROW_AMOUNT - half) as u128 * RATE_SCALE);
    env.advance_slots(1);
    env.repay(0, &mut o, BORROW_AMOUNT - half).expect("repay the rest");
}

#[test]
fn test_refresh_reserve_updates_price() {
    let mut env = Env::new();
    env.refresh_reserve(0).expect("refresh_reserve");
    assert_eq!(env.reserve(0).liquidity.market_price_sf, RATE_SCALE, "price should be $1.00");
    assert_eq!(env.reserve(0).liquidity.price_last_updated_ts, BASE_TIMESTAMP);
}

#[test]
fn test_borrow_repay_test_borrow_zero_fails() {
    let mut env = seeded_env();
    let mut o = setup_borrower(&mut env);
    let result = env.borrow(0, &mut o, 0);
    assert_eq!(result, Err(LendingError::InvalidAmount), "borrow(0) should fail");
}

#[test]
fn test_borrow_multi_reserve() {
    let mut env = Env::new();
    let second = env.add_reserve(30, 40);
    env.deposit(second, SEED_LIQUIDITY).expect("seed second reserve");
    env.refresh_reserve(0).expect("refresh first");
    env.refresh_reserve(second).expect("refresh second");
    env.deposit(0, COLLATERAL).expect("deposit");
    let mut o = env.new_obligation(5);
    env.deposit_collateral(0, &mut o, COLLATERAL).expect("deposit_collateral");
    env.refresh_obligation(&mut o).expect("refresh_obligation");
    let vault_before = env.reserve(second).liquidity.available_amount;
    env.borrow(second, &mut o, BORROW_AMOUNT).expect("cross-reserve borrow");
    assert_eq!(
        vault_before - env.reserve(second).liquidity.available_amount,
        BORROW_AMOUNT,
        "user should receive reserve2 tokens via cross-reserve borrow"
    );
    assert_eq!(o.borrows[0].borrow_reserve, env.reserve_key(second));
}

fn setup_active_borrow(env: &mut Env) -> Obligation {
    let mut o = setup_borrower(env);
    env.borrow(0, &mut o, BORROW_AMOUNT).expect("borrow");
    o
}

#[test]
fn test_repay_zero_fails() {
    let mut env = seeded_env();
    let mut o = setup_active_borrow(&mut env);
    let result = env.repay(0, &mut o, 0);
    assert_eq!(result, Err(LendingError::InvalidAmount), "repay(0) should fail");
}

#[test]
fn test_repay_without_borrow_fails() {
    let mut env = Env::new();
    let mut o = env.new_obligation(5);
    let result = env.repay(0, &mut o, 1);
    assert!(result.is_err(), "repay with no open borrow should fail");
}

// ── governance ────────────────────────────────────────────────────────────────

#[test]
fn test_set_pause_blocks_deposit() {
    let mut env = Env::new();
    set_pause(&mut env.market, true).expect("pause");
    let result = env.deposit(0, 5_000_000);
    assert_eq!(result, Err(LendingError::InvalidConfig), "deposit should be blocked when market is paused");
}

#[test]
fn test_set_pause_blocks_borrow() {
    let mut env = Env::new();
    env.deposit(0, 20_000_000).expect("seed");
    env.refresh_reserve(0).expect("refresh_reserve");
    env.deposit(0, 5_000_000).expect("deposit");
    let mut o = env.new_obligation(5);
    env.deposit_collateral(0, &mut o, 5_000_000).expect("deposit_collateral");
    env.refresh_obligation(&mut o).expect("refresh_obligation");
    set_pause(&mut env.market, true).expect("pause");
    let result = env.borrow(0, &mut o, 1_000_000);
    assert_eq!(result, Err(LendingError::InvalidConfig), "borrow should be blocked when market is paused");
}

#[test]
fn test_unpause_re_enables_deposit() {
    let mut env = Env::new();
    set_pause(&mut env.market, true).expect("pause");
    set_pause(&mut env.market, false).expect("unpause");
    env.deposit(0, 5_000_000).expect("deposit should succeed after unpause");
    assert_eq!(env.reserve(0).liquidity.available_amount, 5_000_000, "deposit should succeed after unpause");
}

#[test]
fn test_set_pause_blocks_withdraw() {
    let mut env = Env::new();
    env.deposit(0, 5_000_000).expect("deposit");
    set_pause(&mut env.market, true).expect("pause");
    let result = env.withdraw(0, 5_000_000);
    assert_eq!(result, Err(LendingError::InvalidConfig), "withdraw should be blocked when market is paused");
}

#[test]
fn test_update_reserve_config_makes_reserve_inactive() {
    let mut env = Env::new();
    env.deposit(0, 5_000_000).expect("deposit");
    let mut o = env.new_obligation(5);
    let mut reserve = env.reserve(0);
    update_reserve_config(&mut reserve, config(1, key(20))).expect("update_reserve_config");
    env.reserves[0].2 = reserve;
    let result = env.deposit_collateral(0, &mut o, 5_000_000);
    assert_eq!(result, Err(LendingError::InvalidConfig), "deposit_collateral should fail when reserve is inactive");
}

// ── liquidation ───────────────────────────────────────────────────────────────

const POOL: u64 = 100_000_000;
const LIQ_COLLATERAL: u64 = 10_000_000;
const BORROW_AT_LIMIT: u64 = 8_000_000;

/// A pool of `POOL` and a borrower at health factor 1.0.
fn borrower_at_limit() -> (Env, Obligation) {
    let mut env = Env::new();
    env.deposit(0, POOL).expect("seed");
    env.refresh_reserve(0).expect("refresh_reserve");
    env.deposit(0, LIQ_COLLATERAL).expect("deposit");
    let mut o = env.new_obligation(5);
    env.deposit_collateral(0, &mut o, LIQ_COLLATERAL).expect("deposit_collateral");
    env.refresh_obligation(&mut o).expect("refresh_obligation");
    env.borrow(0, &mut o, BORROW_AT_LIMIT).expect("borrow at the limit");
    (env, o)
}

/// One slot of interest pushes the health factor below 1.0.
fn make_unhealthy(env: &mut Env, o: &mut Obligation) {
    env.advance_slots(1);
    env.refresh_reserve(0).expect("refresh_reserve");
    env.refresh_obligation(o).expect("refresh_obligation");
}

#[test]
fn test_healthy_obligation_cannot_be_liquidated() {
    let (mut env, mut o) = borrower_at_limit();
    let result = env.liquidate(0, &mut o, 1_000_000);
    assert_eq!(result, Err(LendingError::ObligationHealthy), "healthy obligation must not be liquidatable");
}

#[test]
fn test_unhealthy_obligation_can_be_liquidated() {
    let (mut env, mut o) = borrower_at_limit();
    make_unhealthy(&mut env, &mut o);
    let mut liquidator_tokens = BORROW_AT_LIMIT;
    let (repaid, seized) = env.liquidate(0, &mut o, BORROW_AT_LIMIT / 2).expect("liquidate");
    liquidator_tokens -= repaid;
    assert!(liquidator_tokens < BORROW_AT_LIMIT, "liquidator should have spent repay tokens");
    assert!(seized > 0, "liquidator should have received cToken collateral");
}

#[test]
fn test_liquidation_close_factor_caps_at_50_pct() {
    let (mut env, mut o) = borrower_at_limit();
    make_unhealthy(&mut env, &mut o);
    let (spent, _) = env.liquidate(0, &mut o, BORROW_AT_LIMIT * 2).expect("liquidate");
    assert!(
        spent <= BORROW_AT_LIMIT / 2 + 100,
        "liquidator should not spend more than 50% of debt (close factor), spent {spent}"
    );
}

#[test]
fn test_liquidation_bonus_received() {
    let (mut env, mut o) = borrower_at_limit();
    make_unhealthy(&mut env, &mut o);
    let repay = BORROW_AT_LIMIT / 4;
    let (_, ctokens_received) = env.liquidate(0, &mut o, repay).expect("liquidate");
    assert!(
        ctokens_received > repay,
        "liquidator cTokens ({ctokens_received}) should exceed repay amount ({repay}) due to bonus"
    );
}

#[test]
fn test_obligation_state_reduced_after_liquidation() {
    let (mut env, mut o) = borrower_at_limit();
    make_unhealthy(&mut env, &mut o);
    let collateral_before = o.deposits[0].deposited_amount;
    env.liquidate(0, &mut o, BORROW_AT_LIMIT / 2).expect("liquidate");
    assert!(o.deposits[0].deposited_amount < collateral_before, "collateral_supply_vault should decrease after liquidation");
    let vault_after_borrow = POOL - BORROW_AT_LIMIT;
    assert!(
        env.reserve(0).liquidity.available_amount > vault_after_borrow,
        "liquidity_vault should increase after liquidation repayment"
    );
}
