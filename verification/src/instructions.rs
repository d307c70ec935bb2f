//! The decisions each lending instruction makes, on the accounts' contents.
//! Account loading, token transfers and mints stay with the caller, which
//! performs the transfers these functions return.
use vstd::prelude::*;

use crate::constants::{BPS_SCALER, MAX_AGE_SECONDS, MAX_LIQUIDATION_CLOSE_FACTOR_PCT, MAX_PROTOCOL_FEE_BPS, RATE_SCALE};
use crate::prices::{exponent_in_range, get_pyth_price, pyth_price_result, PriceUpdate};
use crate::reserve_liquidity::ReserveLiquidity;
use crate::error::LendingError;
use crate::lending_market::{InitializeLendingParams, LendingMarket};
use crate::obligation::{accrue_slot, InitObligationParams, Obligation, ObligationCollateral, ObligationLiquidity};
use vstd::array::spec_array_update;
use crate::last_update::LastUpdate;
use crate::pubkey::Pubkey;
use crate::private_obligation::PrivateObligation;
use crate::reserve::{Reserve, RESERVE_VERSION};
use crate::reserve_collateral::NewReserveCollateralParams;
use crate::reserve_config::InitReserveConfigParams;
use crate::reserve_liquidity::NewReserveLiquidityParams;

verus! {

pub struct InitializeMarketArgs {
    pub quote_currency: [u8; 32],
    pub protocol_fee_bps: u16,
}

pub struct AddReserveArgs {
    pub config: InitReserveConfigParams,
}

/// The accounts a new reserve is wired to.
pub struct ReserveAccountKeys {
    pub reserve_mint: Pubkey,
    pub liquidity_vault: Pubkey,
    pub fee_vault: Pubkey,
    pub collateral_mint: Pubkey,
    pub collateral_supply_vault: Pubkey,
    pub lending_market: Pubkey,
}

/// What `initialize_market` returns: an existing market is refused, then a fee above the cap.
pub open spec fn initialize_market_result(market: LendingMarket, args: InitializeMarketArgs) -> Result<(), LendingError> {
    if market.version != 0 {
        Err(LendingError::AlreadyInitialized)
    } else if args.protocol_fee_bps > MAX_PROTOCOL_FEE_BPS {
        Err(LendingError::InvalidFee)
    } else {
        Ok(())
    }
}

/// Creates the market of `owner`. A market that is already initialized
/// (version other than 0) is refused, as is a fee above `MAX_PROTOCOL_FEE_BPS`.
pub fn initialize_market(
    lending_market: &mut LendingMarket,
    owner: Pubkey,
    bump: u8,
    args: InitializeMarketArgs,
) -> (r: Result<(), LendingError>)
    ensures
        r == initialize_market_result(*old(lending_market), args),
        r is Ok ==> {
            &&& final(lending_market).version == 1
            &&& final(lending_market).bump == bump
            &&& final(lending_market).owner == owner
            &&& !final(lending_market).emergency_pause
            &&& final(lending_market).quote_currency == args.quote_currency
            &&& final(lending_market).protocol_fee_bps == args.protocol_fee_bps
            &&& forall|i: int| 0 <= i < 64 ==> #[trigger] final(lending_market).padding@[i] == 0
        },
        r is Err ==> *final(lending_market) == *old(lending_market),
{
    if lending_market.version != 0 {
        return Err(LendingError::AlreadyInitialized);
    }
    if !(args.protocol_fee_bps <= MAX_PROTOCOL_FEE_BPS) {
        return Err(LendingError::InvalidFee);
    }
    let r = lending_market.init(
        InitializeLendingParams {
            bump,
            owner,
            quote_currency: args.quote_currency,
            protocol_fee_bps: args.protocol_fee_bps,
        },
    );
    match r {
        Ok(()) => Ok(()),
        Err(e) => Err(e),
    }
}

/// What `add_reserve` returns.
pub open spec fn add_reserve_result(market: LendingMarket, reserve: Reserve, args: AddReserveArgs) -> Result<(), LendingError> {
    if market.emergency_pause {
        Err(LendingError::InvalidConfig)
    } else if reserve.version != 0 {
        Err(LendingError::AlreadyInitialized)
    } else if !args.config.to_config().is_valid() {
        Err(LendingError::InvalidConfig)
    } else {
        Ok(())
    }
}

/// Registers a new reserve in an unpaused market: an empty pool with its rate
/// index at 1.0, wired to its vaults and cToken mint, with a validated config.
pub fn add_reserve(
    lending_market: &LendingMarket,
    reserve: &mut Reserve,
    keys: ReserveAccountKeys,
    bump: u8,
    current_slot: u64,
    args: AddReserveArgs,
) -> (r: Result<(), LendingError>)
    ensures
        r == add_reserve_result(*lending_market, *old(reserve), args),
        r is Ok ==> {
            &&& final(reserve).version == RESERVE_VERSION
            &&& final(reserve).last_update_slot == current_slot
            &&& final(reserve).bump == bump
            &&& final(reserve).lending_market == keys.lending_market
            &&& final(reserve).liquidity.mint == keys.reserve_mint
            &&& final(reserve).liquidity.supply_vault == keys.liquidity_vault
            &&& final(reserve).liquidity.fee_vault == keys.fee_vault
            &&& final(reserve).liquidity.available_amount == 0
            &&& final(reserve).liquidity.borrowed_amount_sf == 0
            &&& final(reserve).liquidity.accumulated_protocol_fees == 0
            &&& final(reserve).liquidity.cumulative_borrow_rate_sf == RATE_SCALE
            &&& final(reserve).liquidity.market_price_sf == 0
            &&& final(reserve).collateral.mint_pda == keys.collateral_mint
            &&& final(reserve).collateral.supply_vault_pda == keys.collateral_supply_vault
            &&& final(reserve).collateral.mint_total_supply == 0
            &&& final(reserve).config == args.config.to_config()
            &&& final(reserve).liquidity.price_last_updated_ts == 0
            &&& forall|i: int| 0 <= i < 8 ==> #[trigger] final(reserve).liquidity.padding@[i] == 0
            &&& forall|i: int| 0 <= i < 64 ==> #[trigger] final(reserve).collateral.padding1@[i] == 0
            &&& forall|i: int| 0 <= i < 64 ==> #[trigger] final(reserve).collateral.padding2@[i] == 0
            &&& forall|i: int| 0 <= i < 7 ==> #[trigger] final(reserve).padding@[i] == 0
        },
        r is Err ==> *final(reserve) == *old(reserve),
{
    if lending_market.is_paused() {
        return Err(LendingError::InvalidConfig);
    }
    if reserve.version != 0 {
        return Err(LendingError::AlreadyInitialized);
    }
    let mut fresh = Reserve::default();
    fresh.version = RESERVE_VERSION;
    fresh.last_update_slot = current_slot;
    fresh.bump = bump;
    fresh.lending_market = keys.lending_market;
    fresh.liquidity.init(
        NewReserveLiquidityParams {
            mint: keys.reserve_mint,
            supply_vault: keys.liquidity_vault,
            fee_vault: keys.fee_vault,
        },
    );
    fresh.collateral.init(
        NewReserveCollateralParams {
            mint_pda: keys.collateral_mint,
            supply_vault_pda: keys.collateral_supply_vault,
        },
    );
    match fresh.config.init(args.config) {
        Ok(()) => {},
        Err(e) => {
            return Err(e);
        },
    }
    *reserve = fresh;
    Ok(())
}

/// Pauses or resumes the market.
pub fn set_pause(lending_market: &mut LendingMarket, paused: bool) -> (r: Result<(), LendingError>)
    ensures
        r is Ok,
        *final(lending_market) == (LendingMarket { emergency_pause: paused, ..*old(lending_market) }),
{
    lending_market.set_emergency_pause(paused)
}

/// Hands the market to `new_authority`.
pub fn update_market_authority(lending_market: &mut LendingMarket, new_authority: Pubkey) -> (r:
    Result<(), LendingError>)
    ensures
        r is Ok,
        *final(lending_market) == (LendingMarket { owner: new_authority, ..*old(lending_market) }),
{
    lending_market.owner = new_authority;
    Ok(())
}

/// Replaces a reserve's configuration, provided the new one is valid; the
/// rest of the reserve is untouched.
pub fn update_reserve_config(reserve: &mut Reserve, new_config: InitReserveConfigParams) -> (r:
    Result<(), LendingError>)
    ensures
        new_config.to_config().is_valid() ==> r is Ok && *final(reserve) == (Reserve {
            config: new_config.to_config(),
            ..*old(reserve)
        }),
        !new_config.to_config().is_valid() ==> r == Err::<(), LendingError>(
            LendingError::InvalidConfig,
        ) && *final(reserve) == *old(reserve),
{
    let mut config = reserve.config;
    config.init(new_config)?;
    reserve.config = config;
    Ok(())
}

/// Opens `owner`'s obligation in a market. An obligation that already has an
/// owner is refused.
pub fn init_obligation(obligation: &mut Obligation, owner: Pubkey, lending_market: Pubkey, bump: u8) -> (r:
    Result<(), LendingError>)
    ensures
        !old(obligation).owner.is_zero() ==> r == Err::<(), LendingError>(
            LendingError::AlreadyInitialized,
        ) && *final(obligation) == *old(obligation),
        old(obligation).owner.is_zero() ==> r is Ok && final(obligation).is_fresh()
            && final(obligation).owner == owner && final(obligation).lending_market
            == lending_market && final(obligation).bump == bump
            && final(obligation).padding_is_zero(),
{
    if !obligation.owner.is_default() {
        return Err(LendingError::AlreadyInitialized);
    }
    obligation.init(InitObligationParams { bump, owner, lending_market });
    Ok(())
}

/// What `deposit` returns.
pub open spec fn deposit_result(market: LendingMarket, reserve: Reserve, current_slot: u64, amount: u64) -> Result<u64, LendingError> {
    if market.emergency_pause {
        Err(LendingError::InvalidConfig)
    } else if amount == 0 {
        Err(LendingError::InvalidAmount)
    } else if reserve.config.status != 0 {
        Err(LendingError::InvalidConfig)
    } else if !reserve.accrue_ok(current_slot) {
        Err(LendingError::MathOverflow)
    } else {
        reserve.accrued_at(current_slot).deposit_result(amount)
    }
}

/// Deposits `amount` tokens into an active reserve of an unpaused market,
/// after accruing interest; returns the cTokens to mint to the depositor.
pub fn deposit(lending_market: &LendingMarket, reserve: &mut Reserve, current_slot: u64, amount: u64) -> (r:
    Result<u64, LendingError>)
    requires
        old(reserve).slots_since(current_slot) > 0 ==> old(reserve).rate_computable(),
    ensures
        r == deposit_result(*lending_market, *old(reserve), current_slot, amount),
        r matches Ok(minted) ==> *final(reserve) == old(reserve).accrued_at(
            current_slot,
        ).after_deposit(amount, minted),
        r is Err ==> *final(reserve) == *old(reserve),
{
    if lending_market.is_paused() {
        return Err(LendingError::InvalidConfig);
    }
    if !(amount > 0) {
        return Err(LendingError::InvalidAmount);
    }
    if !reserve.config.is_active() {
        return Err(LendingError::InvalidConfig);
    }
    let mut next = *reserve;
    next.accrue_interest(current_slot)?;
    let minted = next.deposit_liquidity(amount)?;
    *reserve = next;
    Ok(minted)
}

/// What `withdraw` returns.
pub open spec fn withdraw_result(market: LendingMarket, reserve: Reserve, current_slot: u64, collateral_amount: u64) -> Result<u64, LendingError> {
    if market.emergency_pause {
        Err(LendingError::InvalidConfig)
    } else if collateral_amount == 0 {
        Err(LendingError::InvalidAmount)
    } else if reserve.config.status != 0 {
        Err(LendingError::InvalidConfig)
    } else if !reserve.accrue_ok(current_slot) {
        Err(LendingError::MathOverflow)
    } else {
        reserve.accrued_at(current_slot).redeem_result(collateral_amount)
    }
}

/// Redeems `collateral_amount` cTokens from an active reserve of an unpaused
/// market, after accruing interest; returns the tokens to pay out (the cTokens
/// are to be burnt).
pub fn withdraw(lending_market: &LendingMarket, reserve: &mut Reserve, current_slot: u64, collateral_amount: u64) -> (r:
    Result<u64, LendingError>)
    requires
        old(reserve).slots_since(current_slot) > 0 ==> old(reserve).rate_computable(),
    ensures
        r == withdraw_result(*lending_market, *old(reserve), current_slot, collateral_amount),
        r matches Ok(paid) ==> *final(reserve) == old(reserve).accrued_at(
            current_slot,
        ).after_redeem(collateral_amount, paid),
        r is Err ==> *final(reserve) == *old(reserve),
{
    if lending_market.is_paused() {
        return Err(LendingError::InvalidConfig);
    }
    if !(collateral_amount > 0) {
        return Err(LendingError::InvalidAmount);
    }
    if !reserve.config.is_active() {
        return Err(LendingError::InvalidConfig);
    }
    let mut next = *reserve;
    next.accrue_interest(current_slot)?;
    let paid = next.redeem_collateral(collateral_amount)?;
    *reserve = next;
    Ok(paid)
}

/// What `deposit_collateral` returns.
pub open spec fn deposit_collateral_result(
    market: LendingMarket,
    reserve: Reserve,
    obligation: Obligation,
    reserve_key: Pubkey,
    collateral_amount: u64,
) -> Result<(), LendingError> {
    if market.emergency_pause {
        Err(LendingError::InvalidConfig)
    } else if collateral_amount == 0 {
        Err(LendingError::InvalidAmount)
    } else if reserve.config.status != 0 {
        Err(LendingError::InvalidConfig)
    } else {
        obligation.deposit_result(reserve_key, collateral_amount)
    }
}

/// Locks `collateral_amount` cTokens of an active reserve in the obligation
/// (the cTokens are to move into the collateral vault).
pub fn deposit_collateral(
    lending_market: &LendingMarket,
    reserve: &Reserve,
    obligation: &mut Obligation,
    reserve_key: Pubkey,
    collateral_amount: u64,
) -> (r: Result<(), LendingError>)
    ensures
        r == deposit_collateral_result(
            *lending_market,
            *reserve,
            *old(obligation),
            reserve_key,
            collateral_amount,
        ),
        r is Ok ==> *final(obligation) == old(obligation).after_deposit(
            reserve_key,
            collateral_amount,
        ),
        r is Err ==> *final(obligation) == *old(obligation),
{
    if lending_market.is_paused() {
        return Err(LendingError::InvalidConfig);
    }
    if !(collateral_amount > 0) {
        return Err(LendingError::InvalidAmount);
    }
    if !reserve.config.is_active() {
        return Err(LendingError::InvalidConfig);
    }
    match obligation.deposit(reserve_key, collateral_amount) {
        Ok(()) => Ok(()),
        Err(e) => Err(e),
    }
}


/// The obligation with debt slot `i` replaced by `slot`.
pub open spec fn with_borrow_slot(o: Obligation, i: int, slot: ObligationLiquidity) -> Obligation {
    Obligation { borrows: spec_array_update(o.borrows, i, slot), ..o }
}

/// The obligation with collateral slot `i` replaced by `slot`.
pub open spec fn with_deposit_slot(o: Obligation, i: int, slot: ObligationCollateral) -> Obligation {
    Obligation { deposits: spec_array_update(o.deposits, i, slot), ..o }
}

/// The obligation with the debt owed to `key` (if any) brought current to `rate`.
pub open spec fn accrue_existing(o: Obligation, key: Pubkey, rate: u128) -> Result<Obligation, LendingError> {
    match o.find_borrow_from(key, 0) {
        None => Ok(o),
        Some(i) => match accrue_slot(o.borrows@[i], rate) {
            Ok(s) => Ok(with_borrow_slot(o, i, s)),
            Err(e) => Err(e),
        },
    }
}

/// The debt owed to `key` brought current to `rate`; refused when there is none.
pub open spec fn accrue_owed(o: Obligation, key: Pubkey, rate: u128) -> Result<Obligation, LendingError> {
    match o.find_borrow_from(key, 0) {
        None => Err(LendingError::BorrowNotFound),
        Some(_) => accrue_existing(o, key, rate),
    }
}

/// What `check_new_borrow_covered` returns: the collateral value must cover the
/// existing debt value plus `amount` tokens at `price`.
pub open spec fn new_borrow_covered_result(o: Obligation, amount: u64, price: u128) -> Result<(), LendingError> {
    if o.collateral_value() > u128::MAX {
        Err(LendingError::MathOverflow)
    } else if o.borrow_value() > u128::MAX {
        Err(LendingError::MathOverflow)
    } else if amount * price > u128::MAX {
        Err(LendingError::MathOverflow)
    } else if o.borrow_value() + amount * price > u128::MAX {
        Err(LendingError::MathOverflow)
    } else if o.collateral_value() < o.borrow_value() + amount * price {
        Err(LendingError::UnhealthyObligation)
    } else {
        Ok(())
    }
}

/// Checks that the obligation's collateral value covers its debt value plus
/// a new borrow of `amount` tokens priced at `price` (USD × `RATE_SCALE`).
pub fn check_new_borrow_covered(obligation: &Obligation, amount: u64, price: u128) -> (r: Result<(), LendingError>)
    ensures
        r == new_borrow_covered_result(*obligation, amount, price),
{
    proof {
        obligation.lemma_values_nonneg(obligation.counted_deposits());
        obligation.lemma_values_nonneg(obligation.counted_borrows());
    }
    let collateral_value = match obligation.collateral_value_sf() {
        Some(v) => v,
        None => {
            return Err(LendingError::MathOverflow);
        },
    };
    let existing_borrow_value = match obligation.borrow_value_sf() {
        Some(v) => v,
        None => {
            return Err(LendingError::MathOverflow);
        },
    };
    let new_borrow_value = match (amount as u128).checked_mul(price) {
        Some(v) => v,
        None => {
            return Err(LendingError::MathOverflow);
        },
    };
    let total_borrow_value = match existing_borrow_value.checked_add(new_borrow_value) {
        Some(v) => v,
        None => {
            return Err(LendingError::MathOverflow);
        },
    };
    if !(collateral_value >= total_borrow_value) {
        return Err(LendingError::UnhealthyObligation);
    }
    Ok(())
}

/// What a borrow does once the market and the private position have been checked:
/// refused where the reserve is inactive or unpriced, then the reserve and
/// obligation steps in order.
pub open spec fn borrow_core_result(
    reserve: Reserve,
    obligation: Obligation,
    reserve_key: Pubkey,
    current_slot: u64,
    amount: u64,
) -> Result<(), LendingError> {
    let r1 = reserve.accrued_at(current_slot);
    let rate = r1.liquidity.cumulative_borrow_rate_sf;
    if reserve.config.status != 0 {
        Err(LendingError::InvalidConfig)
    } else if reserve.liquidity.market_price_sf == 0 {
        Err(LendingError::PriceNotValid)
    } else if !reserve.accrue_ok(current_slot) {
        Err(LendingError::MathOverflow)
    } else if r1.borrow_result(amount) is Err {
        r1.borrow_result(amount)
    } else if obligation.last_update.slot != current_slot {
        Err(LendingError::ObligationStale)
    } else {
        match accrue_existing(obligation, reserve_key, rate) {
            Err(e) => Err(e),
            Ok(o1) => if o1.borrow_result(reserve_key, amount as u128, rate) is Err {
                o1.borrow_result(reserve_key, amount as u128, rate)
            } else {
                new_borrow_covered_result(
                    o1.after_borrow(reserve_key, amount as u128, rate),
                    amount,
                    reserve.liquidity.market_price_sf,
                )
            },
        }
    }
}

/// The obligation after a successful borrow.
pub open spec fn borrow_core_obligation(
    reserve: Reserve,
    obligation: Obligation,
    reserve_key: Pubkey,
    current_slot: u64,
    amount: u64,
) -> Obligation {
    let rate = reserve.accrued_at(current_slot).liquidity.cumulative_borrow_rate_sf;
    accrue_existing(obligation, reserve_key, rate)->Ok_0.after_borrow(
        reserve_key,
        amount as u128,
        rate,
    )
}

fn borrow_core(
    reserve: &mut Reserve,
    obligation: &mut Obligation,
    reserve_key: Pubkey,
    current_slot: u64,
    amount: u64,
) -> (r: Result<(), LendingError>)
    requires
        old(reserve).slots_since(current_slot) > 0 ==> old(reserve).rate_computable(),
    ensures
        r == borrow_core_result(*old(reserve), *old(obligation), reserve_key, current_slot, amount),
        r is Ok ==> *final(reserve) == old(reserve).accrued_at(current_slot).after_borrow(amount)
            && *final(obligation) == borrow_core_obligation(
            *old(reserve),
            *old(obligation),
            reserve_key,
            current_slot,
            amount,
        ),
        r is Err ==> *final(reserve) == *old(reserve) && *final(obligation) == *old(obligation),
{
    if !reserve.config.is_active() {
        return Err(LendingError::InvalidConfig);
    }
    if !(reserve.liquidity.market_price_sf > 0) {
        return Err(LendingError::PriceNotValid);
    }
    let mut next_reserve = *reserve;
    next_reserve.accrue_interest(current_slot)?;
    match next_reserve.borrow(amount) {
        Ok(()) => {},
        Err(e) => {
            return Err(e);
        },
    }
    let rate = next_reserve.liquidity.cumulative_borrow_rate_sf;
    let price = next_reserve.liquidity.market_price_sf;
    let mut next = *obligation;
    if next.last_update.is_slot_stale(current_slot) {
        return Err(LendingError::ObligationStale);
    }
    match next.find_borrow(reserve_key) {
        Ok(i) => {
            match next.accrue_interest(i, rate) {
                Ok(()) => {},
                Err(e) => {
                    return Err(e);
                },
            }
        },
        Err(_) => {},
    }
    match next.borrow(reserve_key, amount as u128, rate) {
        Ok(()) => {},
        Err(e) => {
            return Err(e);
        },
    }
    match check_new_borrow_covered(&next, amount, price) {
        Ok(()) => {},
        Err(e) => {
            return Err(e);
        },
    }
    *reserve = next_reserve;
    *obligation = next;
    Ok(())
}

/// What `borrow` returns.
pub open spec fn borrow_result(
    market: LendingMarket,
    reserve: Reserve,
    obligation: Obligation,
    reserve_key: Pubkey,
    current_slot: u64,
    amount: u64,
) -> Result<(), LendingError> {
    if market.emergency_pause {
        Err(LendingError::InvalidConfig)
    } else if amount == 0 {
        Err(LendingError::InvalidAmount)
    } else {
        borrow_core_result(reserve, obligation, reserve_key, current_slot, amount)
    }
}

/// Lends `amount` tokens of an active, priced reserve of an unpaused market to
/// an obligation refreshed in this slot, provided its collateral value still
/// covers all its debt value including the new loan. The tokens are to be
/// transferred to the borrower.
pub fn borrow(
    lending_market: &LendingMarket,
    reserve: &mut Reserve,
    obligation: &mut Obligation,
    reserve_key: Pubkey,
    current_slot: u64,
    amount: u64,
) -> (r: Result<(), LendingError>)
    requires
        old(reserve).slots_since(current_slot) > 0 ==> old(reserve).rate_computable(),
        old(obligation).deposits_count <= 8,
        old(obligation).borrows_count <= 8,
    ensures
        r == borrow_result(
            *lending_market,
            *old(reserve),
            *old(obligation),
            reserve_key,
            current_slot,
            amount,
        ),
        r is Ok ==> *final(reserve) == old(reserve).accrued_at(current_slot).after_borrow(amount)
            && *final(obligation) == borrow_core_obligation(
            *old(reserve),
            *old(obligation),
            reserve_key,
            current_slot,
            amount,
        ),
        r is Err ==> *final(reserve) == *old(reserve) && *final(obligation) == *old(obligation),
{
    if lending_market.is_paused() {
        return Err(LendingError::InvalidConfig);
    }
    if !(amount > 0) {
        return Err(LendingError::InvalidAmount);
    }
    borrow_core(reserve, obligation, reserve_key, current_slot, amount)
}

/// What `repay` returns.
pub open spec fn repay_result(
    reserve: Reserve,
    obligation: Obligation,
    reserve_key: Pubkey,
    current_slot: u64,
    amount: u64,
) -> Result<(), LendingError> {
    let r1 = reserve.accrued_at(current_slot);
    let rate = r1.liquidity.cumulative_borrow_rate_sf;
    if amount == 0 {
        Err(LendingError::InvalidAmount)
    } else if reserve.config.status != 0 {
        Err(LendingError::InvalidConfig)
    } else if !reserve.accrue_ok(current_slot) {
        Err(LendingError::MathOverflow)
    } else if !r1.repay_ok(amount) {
        Err(LendingError::MathOverflow)
    } else {
        match accrue_owed(obligation, reserve_key, rate) {
            Err(e) => Err(e),
            Ok(o1) => o1.repay_result(reserve_key, amount as u128),
        }
    }
}

/// The obligation after a successful repay.
pub open spec fn repay_obligation(
    reserve: Reserve,
    obligation: Obligation,
    reserve_key: Pubkey,
    current_slot: u64,
    amount: u64,
) -> Obligation {
    let rate = reserve.accrued_at(current_slot).liquidity.cumulative_borrow_rate_sf;
    accrue_owed(obligation, reserve_key, rate)->Ok_0.after_repay(reserve_key, amount as u128)
}

/// Takes back `amount` tokens into an active reserve and reduces the
/// obligation's debt to it, both brought current first. The tokens are to be
/// transferred from the borrower.
pub fn repay(
    reserve: &mut Reserve,
    obligation: &mut Obligation,
    reserve_key: Pubkey,
    current_slot: u64,
    amount: u64,
) -> (r: Result<(), LendingError>)
    requires
        old(reserve).slots_since(current_slot) > 0 ==> old(reserve).rate_computable(),
    ensures
        r == repay_result(*old(reserve), *old(obligation), reserve_key, current_slot, amount),
        r is Ok ==> *final(reserve) == old(reserve).accrued_at(current_slot).after_repay(amount)
            && *final(obligation) == repay_obligation(
            *old(reserve),
            *old(obligation),
            reserve_key,
            current_slot,
            amount,
        ),
        r is Err ==> *final(reserve) == *old(reserve) && *final(obligation) == *old(obligation),
{
    if !(amount > 0) {
        return Err(LendingError::InvalidAmount);
    }
    if !reserve.config.is_active() {
        return Err(LendingError::InvalidConfig);
    }
    let mut next_reserve = *reserve;
    next_reserve.accrue_interest(current_slot)?;
    let rate = next_reserve.liquidity.cumulative_borrow_rate_sf;
    next_reserve.repay(amount)?;
    let mut next = *obligation;
    let i = next.find_borrow(reserve_key)?;
    match next.accrue_interest(i, rate) {
        Ok(()) => {},
        Err(e) => {
            return Err(e);
        },
    }
    match next.repay(reserve_key, amount as u128) {
        Ok(()) => {},
        Err(e) => {
            return Err(e);
        },
    }
    *reserve = next_reserve;
    *obligation = next;
    Ok(())
}


/// The collateral slot `i` valued down in proportion to the cTokens left after
/// unlocking `amount` of its `deposited` cTokens.
pub open spec fn scaled_market_value(slot: ObligationCollateral, amount: u64) -> int {
    let left = slot.deposited_amount - amount;
    let denominator = if slot.deposited_amount > 0 {
        slot.deposited_amount as int
    } else {
        1
    };
    slot.market_value_sf * left / denominator
}

/// What `withdraw_collateral` returns.
pub open spec fn withdraw_collateral_result(
    market: LendingMarket,
    obligation: Obligation,
    reserve_key: Pubkey,
    current_slot: u64,
    collateral_amount: u64,
) -> Result<(), LendingError> {
    if market.emergency_pause {
        Err(LendingError::InvalidConfig)
    } else if collateral_amount == 0 {
        Err(LendingError::InvalidAmount)
    } else if obligation.last_update.slot != current_slot {
        Err(LendingError::ObligationStale)
    } else {
        match obligation.find_deposit_from(reserve_key, 0) {
            None => Err(LendingError::DepositNotFound),
            Some(i) => {
                let slot = obligation.deposits@[i];
                if collateral_amount > slot.deposited_amount {
                    Err(LendingError::InsufficientCollateral)
                } else if slot.market_value_sf * (slot.deposited_amount - collateral_amount)
                    > u128::MAX {
                    Err(LendingError::MathOverflow)
                } else {
                    let o2 = withdraw_collateral_obligation(
                        obligation,
                        reserve_key,
                        collateral_amount,
                    );
                    if o2.health_factor_value() matches Some(h) && h < RATE_SCALE {
                        Err(LendingError::UnhealthyObligation)
                    } else {
                        Ok(())
                    }
                }
            },
        }
    }
}

/// The obligation after unlocking `collateral_amount` cTokens of `reserve_key`:
/// the slot's value is scaled down to the cTokens left, then they are unlocked.
pub open spec fn withdraw_collateral_obligation(obligation: Obligation, reserve_key: Pubkey, collateral_amount: u64) -> Obligation {
    let i = obligation.find_deposit_from(reserve_key, 0)->Some_0;
    let slot = obligation.deposits@[i];
    with_deposit_slot(
        obligation,
        i,
        ObligationCollateral {
            market_value_sf: scaled_market_value(slot, collateral_amount) as u128,
            ..slot
        },
    ).after_withdraw(reserve_key, collateral_amount)
}

/// Unlocks `collateral_amount` cTokens of a reserve from an obligation refreshed
/// in this slot of an unpaused market, provided the obligation stays healthy
/// (health factor at least 1.0, or no debt value). The cTokens are to be
/// returned to the depositor.
pub fn withdraw_collateral(
    lending_market: &LendingMarket,
    obligation: &mut Obligation,
    reserve_key: Pubkey,
    current_slot: u64,
    collateral_amount: u64,
) -> (r: Result<(), LendingError>)
    ensures
        r == withdraw_collateral_result(
            *lending_market,
            *old(obligation),
            reserve_key,
            current_slot,
            collateral_amount,
        ),
        r is Ok ==> *final(obligation) == withdraw_collateral_obligation(
            *old(obligation),
            reserve_key,
            collateral_amount,
        ),
        r is Err ==> *final(obligation) == *old(obligation),
{
    if lending_market.is_paused() {
        return Err(LendingError::InvalidConfig);
    }
    if !(collateral_amount > 0) {
        return Err(LendingError::InvalidAmount);
    }
    if obligation.last_update.is_slot_stale(current_slot) {
        return Err(LendingError::ObligationStale);
    }
    let i = obligation.find_deposit(reserve_key)?;
    let slot = obligation.deposits[i];
    let old_deposited = slot.deposited_amount as u128;
    let new_deposited: u128 = match old_deposited.checked_sub(collateral_amount as u128) {
        Some(v) => v,
        None => {
            return Err(LendingError::InsufficientCollateral);
        },
    };
    let denominator: u128 = if old_deposited > 1 {
        old_deposited
    } else {
        1
    };
    let value: u128 = match slot.market_value_sf.checked_mul(new_deposited) {
        Some(v) => v / denominator,
        None => {
            return Err(LendingError::MathOverflow);
        },
    };
    let mut next = *obligation;
    let mut entry = slot;
    entry.market_value_sf = value;
    next.deposits[i] = entry;
    proof {
        assert forall|j: int| 0 <= j < 8 implies #[trigger] next.deposits@[j].deposit_reserve
            == obligation.deposits@[j].deposit_reserve by {
            if j != i as int {
                assert(next.deposits@[j] == obligation.deposits@[j]);
            }
        }
        Obligation::lemma_find_deposit_same_keys(next, *obligation, reserve_key, 0);
    }
    match next.withdraw(reserve_key, collateral_amount) {
        Ok(()) => {},
        Err(e) => {
            return Err(e);
        },
    }
    match next.health_factor() {
        Some(hf) => {
            if !(hf >= RATE_SCALE) {
                return Err(LendingError::UnhealthyObligation);
            }
        },
        None => {},
    }
    *obligation = next;
    Ok(())
}

/// What `refresh_reserve` returns.
pub open spec fn refresh_reserve_result(
    reserve: Reserve,
    lending_market_key: Pubkey,
    oracle_key: Pubkey,
    price_update: Option<PriceUpdate>,
    current_slot: u64,
    current_timestamp: i64,
) -> Result<(), LendingError> {
    if reserve.lending_market != lending_market_key {
        Err(LendingError::InvalidConfig)
    } else if oracle_key != reserve.config.pyth_oracle {
        Err(LendingError::InvalidConfig)
    } else if !reserve.accrue_ok(current_slot) {
        Err(LendingError::MathOverflow)
    } else {
        match pyth_price_result(price_update, MAX_AGE_SECONDS, current_timestamp) {
            Err(e) => Err(e),
            Ok(_) => Ok(()),
        }
    }
}

/// Accrues a reserve's interest to the current slot and records the price
/// from its own Pyth oracle account.
pub fn refresh_reserve(
    reserve: &mut Reserve,
    lending_market_key: Pubkey,
    oracle_key: Pubkey,
    price_update: &Option<PriceUpdate>,
    current_slot: u64,
    current_timestamp: i64,
) -> (r: Result<(), LendingError>)
    requires
        old(reserve).slots_since(current_slot) > 0 ==> old(reserve).rate_computable(),
        exponent_in_range(*price_update, MAX_AGE_SECONDS, current_timestamp),
    ensures
        r == refresh_reserve_result(
            *old(reserve),
            lending_market_key,
            oracle_key,
            *price_update,
            current_slot,
            current_timestamp,
        ),
        r is Ok ==> {
            let accrued = old(reserve).accrued_at(current_slot);
            let (price_sf, publish_time) = pyth_price_result(
                *price_update,
                MAX_AGE_SECONDS,
                current_timestamp,
            )->Ok_0;
            *final(reserve) == (Reserve {
                liquidity: ReserveLiquidity {
                    market_price_sf: price_sf,
                    price_last_updated_ts: publish_time,
                    ..accrued.liquidity
                },
                ..accrued
            })
        },
        r is Err ==> *final(reserve) == *old(reserve),
{
    if !(reserve.lending_market == lending_market_key) {
        return Err(LendingError::InvalidConfig);
    }
    if !(oracle_key == reserve.config.pyth_oracle) {
        return Err(LendingError::InvalidConfig);
    }
    let mut next = *reserve;
    next.accrue_interest(current_slot)?;
    let (price_sf, publish_time) = get_pyth_price(price_update, MAX_AGE_SECONDS, current_timestamp)?;
    next.liquidity.market_price_sf = price_sf;
    next.liquidity.price_last_updated_ts = publish_time;
    *reserve = next;
    Ok(())
}


/// The first reserve account at or after `i` whose address is `key`.
pub open spec fn lookup_reserve_from(accounts: Seq<(Pubkey, Reserve)>, key: Pubkey, i: int) -> Option<Reserve>
    decreases accounts.len() - i,
{
    if i < 0 || i >= accounts.len() {
        None
    } else if accounts[i].0 == key {
        Some(accounts[i].1)
    } else {
        lookup_reserve_from(accounts, key, i + 1)
    }
}

/// The reserve account with address `key`, if it was passed.
fn find_reserve_account(accounts: &Vec<(Pubkey, Reserve)>, key: Pubkey) -> (r: Option<Reserve>)
    ensures
        r == lookup_reserve_from(accounts@, key, 0),
{
    let mut i: usize = 0;
    while i < accounts.len()
        invariant
            i <= accounts@.len(),
            lookup_reserve_from(accounts@, key, 0) == lookup_reserve_from(accounts@, key, i as int),
        decreases accounts@.len() - i,
    {
        if accounts[i].0 == key {
            return Some(accounts[i].1);
        }
        i = i + 1;
    }
    None
}

/// A debt slot repriced from its reserve account: brought current to the
/// reserve's rate index and valued at the whole tokens owed (rounded up) × price.
/// A slot whose reserve has no price yet is left as it is.
pub open spec fn refreshed_borrow_slot(slot: ObligationLiquidity, accounts: Seq<(Pubkey, Reserve)>) -> Result<ObligationLiquidity, LendingError> {
    if !slot.active() {
        Ok(slot)
    } else {
        match lookup_reserve_from(accounts, slot.borrow_reserve, 0) {
            None => Err(LendingError::BorrowNotFound),
            Some(res) => if !res.liquidity.supply_ok() {
                Err(LendingError::MathOverflow)
            } else if res.liquidity.market_price_sf == 0 {
                Ok(slot)
            } else {
                match accrue_slot(slot, res.liquidity.cumulative_borrow_rate_sf) {
                    Err(e) => Err(e),
                    Ok(s) => {
                        let raw = whole_tokens_owed(s.borrowed_amount_sf);
                        if raw * res.liquidity.market_price_sf > u128::MAX {
                            Err(LendingError::MathOverflow)
                        } else {
                            Ok(
                                ObligationLiquidity {
                                    market_value_sf: (raw * res.liquidity.market_price_sf) as u128,
                                    ..s
                                },
                            )
                        }
                    },
                }
            },
        }
    }
}

/// A debt of `debt_sf` (tokens × `RATE_SCALE`) in whole tokens, rounded up:
/// a part of a token owed counts as a whole one.
pub open spec fn whole_tokens_owed(debt_sf: u128) -> int {
    debt_sf / RATE_SCALE + if debt_sf % RATE_SCALE == 0 {
        0int
    } else {
        1int
    }
}

/// The underlying tokens `amount` cTokens of a reserve are worth.
pub open spec fn underlying_of(amount: u64, res: Reserve) -> int {
    if res.collateral.mint_total_supply == 0 {
        0
    } else {
        amount * res.liquidity.supply_value() / (res.collateral.mint_total_supply as int)
    }
}

/// A collateral slot repriced from its reserve account: underlying tokens ×
/// price × liquidation threshold / 100. A slot whose reserve has no price
/// yet is left as it is.
pub open spec fn refreshed_deposit_slot(slot: ObligationCollateral, accounts: Seq<(Pubkey, Reserve)>) -> Result<ObligationCollateral, LendingError> {
    if !slot.active() {
        Ok(slot)
    } else {
        match lookup_reserve_from(accounts, slot.deposit_reserve, 0) {
            None => Err(LendingError::DepositNotFound),
            Some(res) => if !res.liquidity.supply_ok() {
                Err(LendingError::MathOverflow)
            } else if res.liquidity.market_price_sf == 0 {
                Ok(slot)
            } else if res.collateral.mint_total_supply != 0 && slot.deposited_amount
                * res.liquidity.supply_value() > u128::MAX {
                Err(LendingError::MathOverflow)
            } else {
                let underlying = underlying_of(slot.deposited_amount, res);
                let price = res.liquidity.market_price_sf;
                let threshold = res.config.liquidation_threshold_pct;
                if underlying * price > u128::MAX || underlying * price * threshold > u128::MAX {
                    Err(LendingError::MathOverflow)
                } else {
                    Ok(
                        ObligationCollateral {
                            market_value_sf: (underlying * price * threshold / 100int) as u128,
                            ..slot
                        },
                    )
                }
            },
        }
    }
}

/// Reprices debt slots `i..n` in order, stopping at the first refusal.
pub open spec fn refresh_borrows_from(o: Obligation, accounts: Seq<(Pubkey, Reserve)>, i: int, n: int) -> Result<Obligation, LendingError>
    decreases n - i,
{
    if i < 0 || i >= n || i >= 8 {
        Ok(o)
    } else {
        match refreshed_borrow_slot(o.borrows@[i], accounts) {
            Err(e) => Err(e),
            Ok(s) => refresh_borrows_from(with_borrow_slot(o, i, s), accounts, i + 1, n),
        }
    }
}

/// Reprices collateral slots `i..n` in order, stopping at the first refusal.
pub open spec fn refresh_deposits_from(o: Obligation, accounts: Seq<(Pubkey, Reserve)>, i: int, n: int) -> Result<Obligation, LendingError>
    decreases n - i,
{
    if i < 0 || i >= n || i >= 8 {
        Ok(o)
    } else {
        match refreshed_deposit_slot(o.deposits@[i], accounts) {
            Err(e) => Err(e),
            Ok(s) => refresh_deposits_from(with_deposit_slot(o, i, s), accounts, i + 1, n),
        }
    }
}

/// The refreshed obligation: every counted debt slot, then every counted
/// collateral slot, repriced; then stamped with this slot and time.
pub open spec fn refresh_obligation_result(
    o: Obligation,
    accounts: Seq<(Pubkey, Reserve)>,
    current_slot: u64,
    current_timestamp: i64,
) -> Result<Obligation, LendingError> {
    match refresh_borrows_from(o, accounts, 0, o.borrows_count as int) {
        Err(e) => Err(e),
        Ok(o1) => match refresh_deposits_from(o1, accounts, 0, o.deposits_count as int) {
            Err(e) => Err(e),
            Ok(o2) => Ok(
                Obligation {
                    last_update: LastUpdate { slot: current_slot, timestamp: current_timestamp },
                    ..o2
                },
            ),
        },
    }
}

fn refresh_borrow_slot(slot: ObligationLiquidity, accounts: &Vec<(Pubkey, Reserve)>) -> (r: Result<
    ObligationLiquidity,
    LendingError,
>)
    ensures
        r == refreshed_borrow_slot(slot, accounts@),
{
    if !slot.is_active() {
        return Ok(slot);
    }
    let res = match find_reserve_account(accounts, slot.borrow_reserve) {
        Some(res) => res,
        None => {
            return Err(LendingError::BorrowNotFound);
        },
    };
    res.liquidity.total_supply()?;
    let price = res.liquidity.market_price_sf;
    if price == 0 {
        return Ok(slot);
    }
    let mut holder = Obligation::default();
    holder.borrows[0] = slot;
    match holder.accrue_interest(0, res.liquidity.cumulative_borrow_rate_sf) {
        Ok(()) => {},
        Err(e) => {
            return Err(e);
        },
    }
    let mut s = holder.borrows[0];
    let whole = s.borrowed_amount_sf / RATE_SCALE;
    let raw = if s.borrowed_amount_sf % RATE_SCALE == 0 {
        whole
    } else {
        whole + 1
    };
    s.market_value_sf = match raw.checked_mul(price) {
        Some(v) => v,
        None => {
            return Err(LendingError::MathOverflow);
        },
    };
    Ok(s)
}

fn refresh_deposit_slot(slot: ObligationCollateral, accounts: &Vec<(Pubkey, Reserve)>) -> (r: Result<
    ObligationCollateral,
    LendingError,
>)
    ensures
        r == refreshed_deposit_slot(slot, accounts@),
{
    if !slot.is_active() {
        return Ok(slot);
    }
    let res = match find_reserve_account(accounts, slot.deposit_reserve) {
        Some(res) => res,
        None => {
            return Err(LendingError::DepositNotFound);
        },
    };
    let total_liquidity = res.liquidity.total_supply()?;
    let price = res.liquidity.market_price_sf;
    if price == 0 {
        return Ok(slot);
    }
    let ctoken_supply = res.collateral.mint_total_supply as u128;
    let underlying: u128 = if ctoken_supply == 0 {
        0
    } else {
        match (slot.deposited_amount as u128).checked_mul(total_liquidity) {
            Some(v) => v / ctoken_supply,
            None => {
                return Err(LendingError::MathOverflow);
            },
        }
    };
    let valued = match underlying.checked_mul(price) {
        Some(v) => v,
        None => {
            return Err(LendingError::MathOverflow);
        },
    };
    let weighted = match valued.checked_mul(res.config.liquidation_threshold_pct as u128) {
        Some(v) => v,
        None => {
            return Err(LendingError::MathOverflow);
        },
    };
    let mut s = slot;
    s.market_value_sf = weighted / 100;
    Ok(s)
}

/// Reprices every counted debt slot (brought current to its reserve's rate
/// index) and collateral slot from the reserve accounts passed, then stamps the
/// obligation with the current slot and time. A slot whose reserve account is
/// missing is refused; one whose reserve has no price yet is skipped.
pub fn refresh_obligation(
    obligation: &mut Obligation,
    reserve_accounts: &Vec<(Pubkey, Reserve)>,
    current_slot: u64,
    current_timestamp: i64,
) -> (r: Result<(), LendingError>)
    requires
        old(obligation).deposits_count <= 8,
        old(obligation).borrows_count <= 8,
    ensures
        refresh_obligation_result(
            *old(obligation),
            reserve_accounts@,
            current_slot,
            current_timestamp,
        ) matches Err(e) ==> r == Err::<(), LendingError>(e),
        r is Ok <==> refresh_obligation_result(
            *old(obligation),
            reserve_accounts@,
            current_slot,
            current_timestamp,
        ) is Ok,
        r is Ok ==> *final(obligation) == refresh_obligation_result(
            *old(obligation),
            reserve_accounts@,
            current_slot,
            current_timestamp,
        )->Ok_0,
        r is Err ==> *final(obligation) == *old(obligation),
{
    let mut next = *obligation;
    let nb: usize = next.borrows_count as usize;
    let mut i: usize = 0;
    while i < nb
        invariant
            i <= nb,
            *obligation == *old(obligation),
            nb == obligation.borrows_count,
            nb <= 8,
            next.deposits_count == obligation.deposits_count,
            next.borrows_count == obligation.borrows_count,
            refresh_borrows_from(*obligation, reserve_accounts@, 0, nb as int)
                == refresh_borrows_from(next, reserve_accounts@, i as int, nb as int),
        decreases nb - i,
    {
        let s = match refresh_borrow_slot(next.borrows[i], reserve_accounts) {
            Ok(s) => s,
            Err(e) => {
                return Err(e);
            },
        };
        next.borrows[i] = s;
        i = i + 1;
    }
    assert(refresh_borrows_from(next, reserve_accounts@, i as int, nb as int) == Ok::<Obligation, LendingError>(next));
    let nd: usize = next.deposits_count as usize;
    let ghost after_borrows = next;
    let mut j: usize = 0;
    while j < nd
        invariant
            j <= nd,
            *obligation == *old(obligation),
            after_borrows == refresh_borrows_from(*obligation, reserve_accounts@, 0, obligation.borrows_count as int)->Ok_0,
            refresh_borrows_from(*obligation, reserve_accounts@, 0, obligation.borrows_count as int) is Ok,
            nd == obligation.deposits_count,
            nd <= 8,
            refresh_deposits_from(after_borrows, reserve_accounts@, 0, nd as int)
                == refresh_deposits_from(next, reserve_accounts@, j as int, nd as int),
        decreases nd - j,
    {
        let s = match refresh_deposit_slot(next.deposits[j], reserve_accounts) {
            Ok(s) => s,
            Err(e) => {
                return Err(e);
            },
        };
        next.deposits[j] = s;
        j = j + 1;
    }
    next.last_update.update(current_slot, current_timestamp);
    *obligation = next;
    Ok(())
}


/// The most a liquidator may repay of a debt of `debt_sf` (tokens × `RATE_SCALE`):
/// half of the whole tokens owed, stored in a `u64`.
pub open spec fn close_factor_cap(debt_sf: u128) -> u64 {
    (((debt_sf as int) / (RATE_SCALE as int)) * MAX_LIQUIDATION_CLOSE_FACTOR_PCT / 100int) as u64
}

/// Underlying collateral tokens owed for repaying `repay` tokens: their value
/// at the debt price plus the liquidation bonus, at the collateral price.
/// `None` where an intermediate value exceeds `u128` or the price is 0.
pub open spec fn bonus_collateral(repay: u64, repay_price: u128, bonus_bps: u16, withdraw_price: u128) -> Option<int> {
    let value = repay * repay_price;
    if value > u128::MAX || value * (BPS_SCALER + bonus_bps) > u128::MAX || withdraw_price == 0 {
        None
    } else {
        Some(value * (BPS_SCALER + bonus_bps) / (BPS_SCALER as int) / (withdraw_price as int))
    }
}

/// cTokens worth `underlying` tokens of the collateral reserve (1:1 while either side is empty).
pub open spec fn ctokens_for(underlying: int, supply: u128, total: u128) -> Option<int> {
    if supply == 0 || total == 0 {
        Some(underlying)
    } else if underlying * supply > u128::MAX {
        None
    } else {
        Some(underlying * supply / (total as int))
    }
}

/// What a liquidation returns once both reserves are current: `(repaid tokens,
/// seized cTokens)`. With `needs_unhealthy`, a healthy obligation is refused.
pub open spec fn liquidation_result(
    o: Obligation,
    repay_reserve: Reserve,
    withdraw_reserve: Reserve,
    repay_key: Pubkey,
    withdraw_key: Pubkey,
    current_slot: u64,
    repay_amount: u64,
    needs_unhealthy: bool,
) -> Result<(u64, u64), LendingError> {
    if o.last_update.slot != current_slot {
        Err(LendingError::ObligationStale)
    } else if needs_unhealthy && o.healthy() {
        Err(LendingError::ObligationHealthy)
    } else {
        match accrue_owed(o, repay_key, repay_reserve.liquidity.cumulative_borrow_rate_sf) {
            Err(e) => Err(e),
            Ok(o1) => {
                let i = o1.find_borrow_from(repay_key, 0)->Some_0;
                let cap = close_factor_cap(o1.borrows@[i].borrowed_amount_sf);
                let actual: u64 = if repay_amount < cap {
                    repay_amount
                } else {
                    cap
                };
                if actual == 0 {
                    Err(LendingError::InvalidAmount)
                } else {
                    match bonus_collateral(
                        actual,
                        repay_reserve.liquidity.market_price_sf,
                        withdraw_reserve.config.liquidation_bonus_pct,
                        withdraw_reserve.liquidity.market_price_sf,
                    ) {
                        None => Err(LendingError::MathOverflow),
                        Some(underlying) => match ctokens_for(
                            underlying,
                            withdraw_reserve.collateral.mint_total_supply as u128,
                            withdraw_reserve.liquidity.supply_value() as u128,
                        ) {
                            None => Err(LendingError::MathOverflow),
                            Some(ctokens) => match o1.find_deposit_from(withdraw_key, 0) {
                                None => Err(LendingError::DepositNotFound),
                                Some(j) => {
                                    let deposited = o1.deposits@[j].deposited_amount;
                                    let seize: u64 = if ctokens < deposited {
                                        ctokens as u64
                                    } else {
                                        deposited
                                    };
                                    if seize == 0 {
                                        Err(LendingError::InvalidAmount)
                                    } else if o1.repay_result(repay_key, actual as u128) is Err {
                                        Err(o1.repay_result(repay_key, actual as u128)->Err_0)
                                    } else if o1.after_repay(
                                        repay_key,
                                        actual as u128,
                                    ).withdraw_result(withdraw_key, seize) is Err {
                                        Err(
                                            o1.after_repay(repay_key, actual as u128).withdraw_result(
                                                withdraw_key,
                                                seize,
                                            )->Err_0,
                                        )
                                    } else {
                                        Ok((actual, seize))
                                    }
                                },
                            },
                        },
                    }
                }
            },
        }
    }
}

/// The obligation after a liquidation that repaid `actual` and seized `seize`.
pub open spec fn liquidated_obligation(
    o: Obligation,
    repay_reserve: Reserve,
    repay_key: Pubkey,
    withdraw_key: Pubkey,
    actual: u64,
    seize: u64,
) -> Obligation {
    accrue_owed(o, repay_key, repay_reserve.liquidity.cumulative_borrow_rate_sf)->Ok_0.after_repay(
        repay_key,
        actual as u128,
    ).after_withdraw(withdraw_key, seize)
}

fn liquidate_obligation(
    obligation: &mut Obligation,
    repay_reserve: &Reserve,
    withdraw_reserve: &Reserve,
    repay_key: Pubkey,
    withdraw_key: Pubkey,
    current_slot: u64,
    repay_amount: u64,
    needs_unhealthy: bool,
) -> (r: Result<(u64, u64), LendingError>)
    requires
        withdraw_reserve.liquidity.supply_ok(),
    ensures
        r == liquidation_result(
            *old(obligation),
            *repay_reserve,
            *withdraw_reserve,
            repay_key,
            withdraw_key,
            current_slot,
            repay_amount,
            needs_unhealthy,
        ),
        r matches Ok((actual, seize)) ==> *final(obligation) == liquidated_obligation(
            *old(obligation),
            *repay_reserve,
            repay_key,
            withdraw_key,
            actual,
            seize,
        ),
        r is Err ==> *final(obligation) == *old(obligation),
{
    if obligation.last_update.is_slot_stale(current_slot) {
        return Err(LendingError::ObligationStale);
    }
    if needs_unhealthy && obligation.is_healthy() {
        return Err(LendingError::ObligationHealthy);
    }
    let mut next = *obligation;
    let i = next.find_borrow(repay_key)?;
    match next.accrue_interest(i, repay_reserve.liquidity.cumulative_borrow_rate_sf) {
        Ok(()) => {},
        Err(e) => {
            return Err(e);
        },
    }
    proof {
        assert forall|k: int| 0 <= k < 8 implies #[trigger] next.borrows@[k].borrow_reserve
            == obligation.borrows@[k].borrow_reserve by {
            if k != i as int {
                assert(next.borrows@[k] == obligation.borrows@[k]);
            }
        }
        Obligation::lemma_find_borrow_same_keys(next, *obligation, repay_key, 0);
    }
    let raw_debt: u128 = next.borrows[i].borrowed_amount_sf / RATE_SCALE;
    proof {
        assert(raw_debt * 50 <= u128::MAX);
    }
    let max_repay: u64 = (raw_debt * MAX_LIQUIDATION_CLOSE_FACTOR_PCT / 100) as u64;
    let actual_repay: u64 = if repay_amount < max_repay {
        repay_amount
    } else {
        max_repay
    };
    if !(actual_repay > 0) {
        return Err(LendingError::InvalidAmount);
    }
    let repay_value: u128 = match (actual_repay as u128).checked_mul(
        repay_reserve.liquidity.market_price_sf,
    ) {
        Some(v) => v,
        None => {
            return Err(LendingError::MathOverflow);
        },
    };
    let bonus_factor: u128 = BPS_SCALER as u128 + withdraw_reserve.config.liquidation_bonus_pct as u128;
    let bonus_value: u128 = match repay_value.checked_mul(bonus_factor) {
        Some(v) => v / (BPS_SCALER as u128),
        None => {
            return Err(LendingError::MathOverflow);
        },
    };
    let withdraw_price = withdraw_reserve.liquidity.market_price_sf;
    if withdraw_price == 0 {
        return Err(LendingError::MathOverflow);
    }
    let underlying: u128 = bonus_value / withdraw_price;
    let supply: u128 = withdraw_reserve.collateral.mint_total_supply as u128;
    let total: u128 = match withdraw_reserve.liquidity.total_supply() {
        Ok(v) => v,
        Err(_) => 0,
    };
    let ctokens: u128 = if supply == 0 || total == 0 {
        underlying
    } else {
        match underlying.checked_mul(supply) {
            Some(v) => v / total,
            None => {
                return Err(LendingError::MathOverflow);
            },
        }
    };
    let j = next.find_deposit(withdraw_key)?;
    let deposited: u128 = next.deposits[j].deposited_amount as u128;
    let seize: u64 = if ctokens < deposited {
        ctokens as u64
    } else {
        deposited as u64
    };
    if !(seize > 0) {
        return Err(LendingError::InvalidAmount);
    }
    match next.repay(repay_key, actual_repay as u128) {
        Ok(()) => {},
        Err(e) => {
            return Err(e);
        },
    }
    match next.withdraw(withdraw_key, seize) {
        Ok(()) => {},
        Err(e) => {
            return Err(e);
        },
    }
    *obligation = next;
    Ok((actual_repay, seize))
}


/// The collateral reserve a liquidation reads: the repay reserve itself, already
/// brought current, when both are the same account.
pub open spec fn withdraw_side(
    repay_reserve: Reserve,
    withdraw_reserve: Reserve,
    repay_key: Pubkey,
    withdraw_key: Pubkey,
    current_slot: u64,
) -> Reserve {
    if repay_key == withdraw_key {
        repay_reserve.accrued_at(current_slot)
    } else {
        withdraw_reserve
    }
}

/// What a liquidation returns, from the reserves' checks to the obligation's.
pub open spec fn liquidate_accounts_result(
    repay_reserve: Reserve,
    withdraw_reserve: Reserve,
    obligation: Obligation,
    repay_key: Pubkey,
    withdraw_key: Pubkey,
    current_slot: u64,
    repay_amount: u64,
    needs_unhealthy: bool,
) -> Result<(u64, u64), LendingError> {
    let rr1 = repay_reserve.accrued_at(current_slot);
    let wr0 = withdraw_side(repay_reserve, withdraw_reserve, repay_key, withdraw_key, current_slot);
    let wr1 = wr0.accrued_at(current_slot);
    if repay_reserve.config.status != 0 {
        Err(LendingError::InvalidConfig)
    } else if !repay_reserve.accrue_ok(current_slot) {
        Err(LendingError::MathOverflow)
    } else if rr1.liquidity.market_price_sf == 0 {
        Err(LendingError::PriceNotValid)
    } else if wr0.config.status != 0 {
        Err(LendingError::InvalidConfig)
    } else if !wr0.accrue_ok(current_slot) {
        Err(LendingError::MathOverflow)
    } else if wr1.liquidity.market_price_sf == 0 {
        Err(LendingError::PriceNotValid)
    } else if !wr1.liquidity.supply_ok() {
        Err(LendingError::MathOverflow)
    } else {
        match liquidation_result(
            obligation,
            rr1,
            wr1,
            repay_key,
            withdraw_key,
            current_slot,
            repay_amount,
            needs_unhealthy,
        ) {
            Err(e) => Err(e),
            Ok((actual, seize)) => if !rr1.repay_ok(actual) {
                Err(LendingError::MathOverflow)
            } else {
                Ok((actual, seize))
            },
        }
    }
}

/// Whether both reserves can accrue interest now.
pub open spec fn liquidation_rates_computable(
    repay_reserve: Reserve,
    withdraw_reserve: Reserve,
    repay_key: Pubkey,
    withdraw_key: Pubkey,
    current_slot: u64,
) -> bool {
    &&& repay_reserve.slots_since(current_slot) > 0 ==> repay_reserve.rate_computable()
    &&& repay_key != withdraw_key && withdraw_reserve.slots_since(current_slot) > 0
        ==> withdraw_reserve.rate_computable()
}

/// After a liquidation: the repay reserve, current and repaid `actual` tokens.
pub open spec fn repay_side_after(repay_reserve: Reserve, current_slot: u64, actual: u64) -> Reserve {
    repay_reserve.accrued_at(current_slot).after_repay(actual)
}

/// After a liquidation: the collateral reserve, brought current (the repay
/// reserve's new state when both are the same account).
pub open spec fn withdraw_side_after(
    repay_reserve: Reserve,
    withdraw_reserve: Reserve,
    repay_key: Pubkey,
    withdraw_key: Pubkey,
    current_slot: u64,
    actual: u64,
) -> Reserve {
    if repay_key == withdraw_key {
        repay_side_after(repay_reserve, current_slot, actual)
    } else {
        withdraw_reserve.accrued_at(current_slot)
    }
}

fn liquidate_accounts(
    repay_reserve: &mut Reserve,
    withdraw_reserve: &mut Reserve,
    obligation: &mut Obligation,
    repay_key: Pubkey,
    withdraw_key: Pubkey,
    current_slot: u64,
    repay_amount: u64,
    needs_unhealthy: bool,
) -> (r: Result<(u64, u64), LendingError>)
    requires
        liquidation_rates_computable(
            *old(repay_reserve),
            *old(withdraw_reserve),
            repay_key,
            withdraw_key,
            current_slot,
        ),
    ensures
        r == liquidate_accounts_result(
            *old(repay_reserve),
            *old(withdraw_reserve),
            *old(obligation),
            repay_key,
            withdraw_key,
            current_slot,
            repay_amount,
            needs_unhealthy,
        ),
        r matches Ok((actual, seize)) ==> {
            &&& *final(repay_reserve) == repay_side_after(*old(repay_reserve), current_slot, actual)
            &&& *final(withdraw_reserve) == withdraw_side_after(
                *old(repay_reserve),
                *old(withdraw_reserve),
                repay_key,
                withdraw_key,
                current_slot,
                actual,
            )
            &&& *final(obligation) == liquidated_obligation(
                *old(obligation),
                old(repay_reserve).accrued_at(current_slot),
                repay_key,
                withdraw_key,
                actual,
                seize,
            )
        },
        r is Err ==> *final(repay_reserve) == *old(repay_reserve) && *final(withdraw_reserve)
            == *old(withdraw_reserve) && *final(obligation) == *old(obligation),
{
    let same = repay_key == withdraw_key;
    if !repay_reserve.config.is_active() {
        return Err(LendingError::InvalidConfig);
    }
    let mut rr = *repay_reserve;
    rr.accrue_interest(current_slot)?;
    if !(rr.liquidity.market_price_sf > 0) {
        return Err(LendingError::PriceNotValid);
    }
    let mut wr = if same {
        rr
    } else {
        *withdraw_reserve
    };
    proof {
        crate::laws::law_accrual_once_per_slot(*repay_reserve, current_slot);
    }
    if !wr.config.is_active() {
        return Err(LendingError::InvalidConfig);
    }
    wr.accrue_interest(current_slot)?;
    if !(wr.liquidity.market_price_sf > 0) {
        return Err(LendingError::PriceNotValid);
    }
    wr.liquidity.total_supply()?;
    let mut next = *obligation;
    let (actual, seize) = liquidate_obligation(
        &mut next,
        &rr,
        &wr,
        repay_key,
        withdraw_key,
        current_slot,
        repay_amount,
        needs_unhealthy,
    )?;
    match rr.repay(actual) {
        Ok(()) => {},
        Err(e) => {
            return Err(e);
        },
    }
    *repay_reserve = rr;
    *withdraw_reserve = if same {
        rr
    } else {
        wr
    };
    *obligation = next;
    Ok((actual, seize))
}

/// What `liquidate` returns.
pub open spec fn liquidate_result(
    market: LendingMarket,
    lending_market_key: Pubkey,
    repay_reserve: Reserve,
    withdraw_reserve: Reserve,
    obligation: Obligation,
    repay_key: Pubkey,
    withdraw_key: Pubkey,
    current_slot: u64,
    repay_amount: u64,
) -> Result<(u64, u64), LendingError> {
    if market.emergency_pause {
        Err(LendingError::InvalidConfig)
    } else if repay_reserve.lending_market != lending_market_key {
        Err(LendingError::InvalidConfig)
    } else if withdraw_reserve.lending_market != lending_market_key {
        Err(LendingError::InvalidConfig)
    } else if repay_amount == 0 {
        Err(LendingError::InvalidAmount)
    } else {
        liquidate_accounts_result(
            repay_reserve,
            withdraw_reserve,
            obligation,
            repay_key,
            withdraw_key,
            current_slot,
            repay_amount,
            true,
        )
    }
}

/// Liquidates an unhealthy obligation refreshed in this slot: the liquidator
/// repays up to half of its debt to the repay reserve (both reserves brought
/// current first) and receives collateral cTokens worth the repaid value plus
/// the collateral reserve's liquidation bonus, capped at what is deposited.
/// Returns `(tokens repaid, cTokens seized)`, which are to be transferred.
/// When both keys name the same account, both reserve arguments hold it and
/// both end holding its new state.
pub fn liquidate(
    lending_market: &LendingMarket,
    lending_market_key: Pubkey,
    repay_reserve: &mut Reserve,
    withdraw_reserve: &mut Reserve,
    obligation: &mut Obligation,
    repay_key: Pubkey,
    withdraw_key: Pubkey,
    current_slot: u64,
    repay_amount: u64,
) -> (r: Result<(u64, u64), LendingError>)
    requires
        repay_key == withdraw_key ==> *old(repay_reserve) == *old(withdraw_reserve),
        liquidation_rates_computable(
            *old(repay_reserve),
            *old(withdraw_reserve),
            repay_key,
            withdraw_key,
            current_slot,
        ),
    ensures
        r == liquidate_result(
            *lending_market,
            lending_market_key,
            *old(repay_reserve),
            *old(withdraw_reserve),
            *old(obligation),
            repay_key,
            withdraw_key,
            current_slot,
            repay_amount,
        ),
        r matches Ok((actual, seize)) ==> {
            &&& *final(repay_reserve) == repay_side_after(*old(repay_reserve), current_slot, actual)
            &&& *final(withdraw_reserve) == withdraw_side_after(
                *old(repay_reserve),
                *old(withdraw_reserve),
                repay_key,
                withdraw_key,
                current_slot,
                actual,
            )
            &&& *final(obligation) == liquidated_obligation(
                *old(obligation),
                old(repay_reserve).accrued_at(current_slot),
                repay_key,
                withdraw_key,
                actual,
                seize,
            )
        },
        r is Err ==> *final(repay_reserve) == *old(repay_reserve) && *final(withdraw_reserve)
            == *old(withdraw_reserve) && *final(obligation) == *old(obligation),
{
    if lending_market.is_paused() {
        return Err(LendingError::InvalidConfig);
    }
    if !(repay_reserve.lending_market == lending_market_key) {
        return Err(LendingError::InvalidConfig);
    }
    if !(withdraw_reserve.lending_market == lending_market_key) {
        return Err(LendingError::InvalidConfig);
    }
    if !(repay_amount > 0) {
        return Err(LendingError::InvalidAmount);
    }
    liquidate_accounts(
        repay_reserve,
        withdraw_reserve,
        obligation,
        repay_key,
        withdraw_key,
        current_slot,
        repay_amount,
        true,
    )
}

/// What `execute_private_liquidation` returns.
pub open spec fn execute_private_liquidation_result(
    market: LendingMarket,
    lending_market_key: Pubkey,
    private_obligation: PrivateObligation,
    repay_reserve: Reserve,
    withdraw_reserve: Reserve,
    obligation: Obligation,
    repay_key: Pubkey,
    withdraw_key: Pubkey,
    current_slot: u64,
    repay_amount: u64,
) -> Result<(u64, u64), LendingError> {
    if market.emergency_pause {
        Err(LendingError::InvalidConfig)
    } else if repay_reserve.lending_market != lending_market_key {
        Err(LendingError::InvalidConfig)
    } else if withdraw_reserve.lending_market != lending_market_key {
        Err(LendingError::InvalidConfig)
    } else if !private_obligation.is_liquidatable {
        Err(LendingError::ObligationHealthy)
    } else if repay_amount == 0 {
        Err(LendingError::InvalidAmount)
    } else {
        liquidate_accounts_result(
            repay_reserve,
            withdraw_reserve,
            obligation,
            repay_key,
            withdraw_key,
            current_slot,
            repay_amount,
            false,
        )
    }
}

/// Liquidates a position the encrypted health check flagged as liquidatable,
/// exactly as `liquidate` does but gated by that flag instead of the public
/// health check; the flag is cleared, so a new check is needed before the
/// next liquidation.
pub fn execute_private_liquidation(
    lending_market: &LendingMarket,
    lending_market_key: Pubkey,
    private_obligation: &mut PrivateObligation,
    repay_reserve: &mut Reserve,
    withdraw_reserve: &mut Reserve,
    obligation: &mut Obligation,
    repay_key: Pubkey,
    withdraw_key: Pubkey,
    current_slot: u64,
    repay_amount: u64,
) -> (r: Result<(u64, u64), LendingError>)
    requires
        repay_key == withdraw_key ==> *old(repay_reserve) == *old(withdraw_reserve),
        liquidation_rates_computable(
            *old(repay_reserve),
            *old(withdraw_reserve),
            repay_key,
            withdraw_key,
            current_slot,
        ),
    ensures
        r == execute_private_liquidation_result(
            *lending_market,
            lending_market_key,
            *old(private_obligation),
            *old(repay_reserve),
            *old(withdraw_reserve),
            *old(obligation),
            repay_key,
            withdraw_key,
            current_slot,
            repay_amount,
        ),
        r matches Ok((actual, seize)) ==> {
            &&& *final(repay_reserve) == repay_side_after(*old(repay_reserve), current_slot, actual)
            &&& *final(withdraw_reserve) == withdraw_side_after(
                *old(repay_reserve),
                *old(withdraw_reserve),
                repay_key,
                withdraw_key,
                current_slot,
                actual,
            )
            &&& *final(obligation) == liquidated_obligation(
                *old(obligation),
                old(repay_reserve).accrued_at(current_slot),
                repay_key,
                withdraw_key,
                actual,
                seize,
            )
            &&& *final(private_obligation) == (PrivateObligation {
                is_liquidatable: false,
                ..*old(private_obligation)
            })
        },
        r is Err ==> *final(repay_reserve) == *old(repay_reserve) && *final(withdraw_reserve)
            == *old(withdraw_reserve) && *final(obligation) == *old(obligation) && *final(
            private_obligation) == *old(private_obligation),
{
    if lending_market.is_paused() {
        return Err(LendingError::InvalidConfig);
    }
    if !(repay_reserve.lending_market == lending_market_key) {
        return Err(LendingError::InvalidConfig);
    }
    if !(withdraw_reserve.lending_market == lending_market_key) {
        return Err(LendingError::InvalidConfig);
    }
    if !private_obligation.is_liquidatable {
        return Err(LendingError::ObligationHealthy);
    }
    if !(repay_amount > 0) {
        return Err(LendingError::InvalidAmount);
    }
    let (actual, seize) = liquidate_accounts(
        repay_reserve,
        withdraw_reserve,
        obligation,
        repay_key,
        withdraw_key,
        current_slot,
        repay_amount,
        false,
    )?;
    private_obligation.is_liquidatable = false;
    Ok((actual, seize))
}


/// What `private_deposit_collateral` returns.
pub open spec fn private_deposit_collateral_result(
    market: LendingMarket,
    reserve: Reserve,
    obligation: Obligation,
    private_obligation: PrivateObligation,
    depositor: Pubkey,
    reserve_key: Pubkey,
    collateral_amount: u64,
) -> Result<(), LendingError> {
    if private_obligation.owner != depositor {
        Err(LendingError::InvalidConfig)
    } else if collateral_amount == 0 {
        Err(LendingError::InvalidAmount)
    } else if !private_obligation.is_initialized {
        Err(LendingError::PrivateObligationNotInitialized)
    } else if market.emergency_pause {
        Err(LendingError::InvalidConfig)
    } else if reserve.config.status != 0 {
        Err(LendingError::InvalidConfig)
    } else {
        obligation.deposit_result(reserve_key, collateral_amount)
    }
}

/// Locks `collateral_amount` cTokens in the public obligation of an initialized
/// private position (the encrypted amount is updated by the confidential
/// computation), and records the collateral reserve if none was yet.
pub fn private_deposit_collateral(
    lending_market: &LendingMarket,
    reserve: &Reserve,
    obligation: &mut Obligation,
    private_obligation: &mut PrivateObligation,
    depositor: Pubkey,
    reserve_key: Pubkey,
    collateral_amount: u64,
) -> (r: Result<(), LendingError>)
    ensures
        r == private_deposit_collateral_result(
            *lending_market,
            *reserve,
            *old(obligation),
            *old(private_obligation),
            depositor,
            reserve_key,
            collateral_amount,
        ),
        r is Ok ==> *final(obligation) == old(obligation).after_deposit(
            reserve_key,
            collateral_amount,
        ) && *final(private_obligation) == (PrivateObligation {
            collateral_reserve: if old(private_obligation).collateral_reserve.is_zero() {
                reserve_key
            } else {
                old(private_obligation).collateral_reserve
            },
            ..*old(private_obligation)
        }),
        r is Err ==> *final(obligation) == *old(obligation) && *final(private_obligation)
            == *old(private_obligation),
{
    if !(private_obligation.owner == depositor) {
        return Err(LendingError::InvalidConfig);
    }
    if !(collateral_amount > 0) {
        return Err(LendingError::InvalidAmount);
    }
    if !private_obligation.is_initialized {
        return Err(LendingError::PrivateObligationNotInitialized);
    }
    if lending_market.is_paused() {
        return Err(LendingError::InvalidConfig);
    }
    if !reserve.config.is_active() {
        return Err(LendingError::InvalidConfig);
    }
    match obligation.deposit(reserve_key, collateral_amount) {
        Ok(()) => {},
        Err(e) => {
            return Err(e);
        },
    }
    if private_obligation.collateral_reserve.is_default() {
        private_obligation.collateral_reserve = reserve_key;
    }
    Ok(())
}

/// What `private_borrow` returns.
pub open spec fn private_borrow_result(
    market: LendingMarket,
    reserve: Reserve,
    obligation: Obligation,
    private_obligation: PrivateObligation,
    reserve_key: Pubkey,
    current_slot: u64,
    amount: u64,
) -> Result<(), LendingError> {
    if amount == 0 {
        Err(LendingError::InvalidAmount)
    } else if !private_obligation.is_initialized {
        Err(LendingError::PrivateObligationNotInitialized)
    } else if market.emergency_pause {
        Err(LendingError::InvalidConfig)
    } else {
        borrow_core_result(reserve, obligation, reserve_key, current_slot, amount)
    }
}

/// Borrows exactly as `borrow` does, for an initialized private position (the
/// encrypted amount is updated by the confidential computation), and records
/// the borrow reserve if none was yet.
pub fn private_borrow(
    lending_market: &LendingMarket,
    reserve: &mut Reserve,
    obligation: &mut Obligation,
    private_obligation: &mut PrivateObligation,
    reserve_key: Pubkey,
    current_slot: u64,
    amount: u64,
) -> (r: Result<(), LendingError>)
    requires
        old(reserve).slots_since(current_slot) > 0 ==> old(reserve).rate_computable(),
        old(obligation).deposits_count <= 8,
        old(obligation).borrows_count <= 8,
    ensures
        r == private_borrow_result(
            *lending_market,
            *old(reserve),
            *old(obligation),
            *old(private_obligation),
            reserve_key,
            current_slot,
            amount,
        ),
        r is Ok ==> *final(reserve) == old(reserve).accrued_at(current_slot).after_borrow(amount)
            && *final(obligation) == borrow_core_obligation(
            *old(reserve),
            *old(obligation),
            reserve_key,
            current_slot,
            amount,
        ) && *final(private_obligation) == (PrivateObligation {
            borrow_reserve: if old(private_obligation).borrow_reserve.is_zero() {
                reserve_key
            } else {
                old(private_obligation).borrow_reserve
            },
            ..*old(private_obligation)
        }),
        r is Err ==> *final(reserve) == *old(reserve) && *final(obligation) == *old(obligation)
            && *final(private_obligation) == *old(private_obligation),
{
    if !(amount > 0) {
        return Err(LendingError::InvalidAmount);
    }
    if !private_obligation.is_initialized {
        return Err(LendingError::PrivateObligationNotInitialized);
    }
    if lending_market.is_paused() {
        return Err(LendingError::InvalidConfig);
    }
    borrow_core(reserve, obligation, reserve_key, current_slot, amount)?;
    if private_obligation.borrow_reserve.is_default() {
        private_obligation.borrow_reserve = reserve_key;
    }
    Ok(())
}

} // verus!
