//! The confidential position arithmetic, on plaintext values. Inside the
//! confidential computation these run on the encrypted position; only the
//! health check's boolean answer is ever revealed.
use vstd::prelude::*;

verus! {

/// Collateral locked and amount borrowed, both in whole tokens.
#[derive(Debug, Clone, Copy)]
pub struct PrivatePosition {
    pub collateral_tokens: u64,
    pub borrow_tokens: u64,
}

impl PrivatePosition {
    /// `amount` more collateral.
    pub open spec fn collateral_added(self, amount: u64) -> PrivatePosition {
        PrivatePosition { collateral_tokens: (self.collateral_tokens + amount) as u64, ..self }
    }

    /// `amount` less collateral, stopping at 0.
    pub open spec fn collateral_removed(self, amount: u64) -> PrivatePosition {
        PrivatePosition {
            collateral_tokens: if self.collateral_tokens >= amount {
                (self.collateral_tokens - amount) as u64
            } else {
                0
            },
            ..self
        }
    }

    /// `amount` more debt.
    pub open spec fn borrow_added(self, amount: u64) -> PrivatePosition {
        PrivatePosition { borrow_tokens: (self.borrow_tokens + amount) as u64, ..self }
    }

    /// `amount` less debt, stopping at 0.
    pub open spec fn borrow_removed(self, amount: u64) -> PrivatePosition {
        PrivatePosition {
            borrow_tokens: if self.borrow_tokens >= amount {
                (self.borrow_tokens - amount) as u64
            } else {
                0
            },
            ..self
        }
    }
}

/// The empty position.
pub fn init_position_v2() -> (pos: PrivatePosition)
    ensures
        pos.collateral_tokens == 0,
        pos.borrow_tokens == 0,
{
    PrivatePosition { collateral_tokens: 0, borrow_tokens: 0 }
}

/// Adds `amount` whole cTokens to the collateral.
pub fn add_collateral_v2(amount: u64, state: PrivatePosition) -> (pos: PrivatePosition)
    requires
        state.collateral_tokens + amount <= u64::MAX,
    ensures
        pos == state.collateral_added(amount),
{
    let mut pos = state;
    pos.collateral_tokens = pos.collateral_tokens + amount;
    pos
}

/// Removes `amount` whole cTokens from the collateral, stopping at 0.
pub fn remove_collateral_2(amount: u64, state: PrivatePosition) -> (pos: PrivatePosition)
    ensures
        pos == state.collateral_removed(amount),
{
    let mut pos = state;
    let decreased = if pos.collateral_tokens >= amount {
        pos.collateral_tokens - amount
    } else {
        0u64
    };
    pos.collateral_tokens = decreased;
    pos
}

/// Adds `amount` whole tokens to the debt.
pub fn add_borrow_v2(amount: u64, state: PrivatePosition) -> (pos: PrivatePosition)
    requires
        state.borrow_tokens + amount <= u64::MAX,
    ensures
        pos == state.borrow_added(amount),
{
    let mut pos = state;
    pos.borrow_tokens = pos.borrow_tokens + amount;
    pos
}

/// Removes `amount` whole tokens from the debt, stopping at 0.
pub fn remove_borrow_2(amount: u64, state: PrivatePosition) -> (pos: PrivatePosition)
    ensures
        pos == state.borrow_removed(amount),
{
    let mut pos = state;
    let decreased = if pos.borrow_tokens >= amount {
        pos.borrow_tokens - amount
    } else {
        0u64
    };
    pos.borrow_tokens = decreased;
    pos
}

/// The collateral value in cents: cTokens × exchange rate × threshold (both in
/// bps, divided out together) × collateral price.
pub open spec fn collateral_value_cents(
    state: PrivatePosition,
    exchange_rate_bps: u64,
    ltv_bps: u64,
    collateral_price_cents: u64,
) -> int {
    state.collateral_tokens * exchange_rate_bps * ltv_bps / 100_000_000int * collateral_price_cents
}

/// Whether each intermediate product of the health check fits in a `u64`.
pub open spec fn health_check_fits(
    state: PrivatePosition,
    exchange_rate_bps: u64,
    collateral_price_cents: u64,
    borrow_price_cents: u64,
    ltv_bps: u64,
) -> bool {
    &&& state.collateral_tokens * exchange_rate_bps <= u64::MAX
    &&& state.collateral_tokens * exchange_rate_bps * ltv_bps <= u64::MAX
    &&& collateral_value_cents(state, exchange_rate_bps, ltv_bps, collateral_price_cents) <= u64::MAX
    &&& state.borrow_tokens * borrow_price_cents <= u64::MAX
}

/// Whether the position's adjusted collateral value covers its debt value.
pub fn check_health_v2(
    state: PrivatePosition,
    exchange_rate_bps: u64,
    collateral_price_cents: u64,
    borrow_price_cents: u64,
    ltv_bps: u64,
) -> (healthy: bool)
    requires
        health_check_fits(
            state,
            exchange_rate_bps,
            collateral_price_cents,
            borrow_price_cents,
            ltv_bps,
        ),
    ensures
        healthy == (collateral_value_cents(state, exchange_rate_bps, ltv_bps, collateral_price_cents)
            >= state.borrow_tokens * borrow_price_cents),
{
    let coll_adj = state.collateral_tokens * exchange_rate_bps * ltv_bps / 100_000_000;
    let coll_value = coll_adj * collateral_price_cents;
    let borr_value = state.borrow_tokens * borrow_price_cents;
    coll_value >= borr_value
}

/// Removing what was just added gives back the position, on either side.
pub proof fn law_position_remove_undoes_add(state: PrivatePosition, amount: u64)
    ensures
        state.collateral_tokens + amount <= u64::MAX ==> state.collateral_added(
            amount,
        ).collateral_removed(amount) == state,
        state.borrow_tokens + amount <= u64::MAX ==> state.borrow_added(amount).borrow_removed(
            amount,
        ) == state,
{
}

} // verus!
