//! VeilVault lending core: reserves, obligations, interest accrual,
//! collateral exchange rates, health checks and liquidation, with their
//! contracts proved by Verus.
pub mod constants;
pub mod error;
pub mod pubkey;
pub mod last_update;
pub mod lending_market;
pub mod prices;
pub mod reserve_config;
pub mod reserve_liquidity;
pub mod reserve_collateral;
pub mod reserve;
pub mod obligation;
pub mod obligation_laws;
pub mod private_obligation;
pub mod instructions;
pub mod circuits;
pub mod laws;
pub mod instruction_laws;
