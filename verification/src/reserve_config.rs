use vstd::prelude::*;

use crate::constants::{
    BPS_SCALER, MAX_LIQUIDATION_THRESHOLD_PCT, MAX_PROTOCOL_FEE_BPS, MAX_UTILIZATION_BPS,
};
use crate::error::LendingError;
use crate::pubkey::Pubkey;

verus! {

/// Risk and interest parameters of one reserve.
#[derive(Debug, Clone, Copy)]
pub struct ReserveConfig {
    pub deposit_limit: u64,
    pub borrow_limit: u64,
    pub min_borrow_rate_bps: u16,
    pub optimal_borrow_rate_bps: u16,
    pub max_borrow_rate_bps: u16,
    pub optimal_utilization_bps: u16,
    pub liquidation_bonus_pct: u16,
    pub protocol_fee: u16,
    pub status: u8,
    pub loan_to_value_pct: u8,
    pub liquidation_threshold_pct: u8,
    pub padding: u8,
    /// The Pyth price account this reserve is priced by.
    pub pyth_oracle: Pubkey,
}

/// The parameters a reserve is configured with.
#[derive(Debug, Clone, Copy)]
pub struct InitReserveConfigParams {
    pub status: u8,
    pub min_borrow_rate_bps: u16,
    pub optimal_borrow_rate_bps: u16,
    pub max_borrow_rate_bps: u16,
    pub optimal_utilization_bps: u16,
    pub loan_to_value_pct: u8,
    pub liquidation_threshold_pct: u8,
    pub liquidation_bonus_pct: u16,
    pub deposit_limit: u64,
    pub borrow_limit: u64,
    pub protocol_fee: u16,
    pub pyth_oracle: Pubkey,
}

/// `a - b`, or 0 when `b > a`.
pub open spec fn sat_sub(a: int, b: int) -> int {
    if a >= b {
        a - b
    } else {
        0
    }
}

impl InitReserveConfigParams {
    /// The configuration these parameters describe.
    pub open spec fn to_config(self) -> ReserveConfig {
        ReserveConfig {
            deposit_limit: self.deposit_limit,
            borrow_limit: self.borrow_limit,
            min_borrow_rate_bps: self.min_borrow_rate_bps,
            optimal_borrow_rate_bps: self.optimal_borrow_rate_bps,
            max_borrow_rate_bps: self.max_borrow_rate_bps,
            optimal_utilization_bps: self.optimal_utilization_bps,
            liquidation_bonus_pct: self.liquidation_bonus_pct,
            protocol_fee: self.protocol_fee,
            status: self.status,
            loan_to_value_pct: self.loan_to_value_pct,
            liquidation_threshold_pct: self.liquidation_threshold_pct,
            padding: 0,
            pyth_oracle: self.pyth_oracle,
        }
    }
}

impl ReserveConfig {
    /// The conditions `validate` checks.
    pub open spec fn is_valid(self) -> bool {
        &&& self.loan_to_value_pct < self.liquidation_threshold_pct
        &&& self.liquidation_threshold_pct <= MAX_LIQUIDATION_THRESHOLD_PCT
        &&& self.min_borrow_rate_bps <= self.optimal_borrow_rate_bps
        &&& self.optimal_borrow_rate_bps <= self.max_borrow_rate_bps
        &&& self.optimal_utilization_bps <= MAX_UTILIZATION_BPS
        &&& self.protocol_fee <= MAX_PROTOCOL_FEE_BPS
    }

    /// The kinked interest curve, in basis points, before it is stored in a `u16`:
    /// from `min` to `optimal` over `[0, optimal_utilization]`, then from
    /// `optimal` towards `max` over the rest of `[0, 10_000]`.
    pub open spec fn rate_curve(self, util: int) -> int {
        let optimal_util = self.optimal_utilization_bps as int;
        if util <= optimal_util {
            let min = self.min_borrow_rate_bps as int;
            let optimal = self.optimal_borrow_rate_bps as int;
            min + if optimal_util == 0 {
                0
            } else {
                util * sat_sub(optimal, min) / optimal_util
            }
        } else {
            let optimal = self.optimal_borrow_rate_bps as int;
            let max = self.max_borrow_rate_bps as int;
            let remaining = sat_sub(BPS_SCALER as int, optimal_util);
            optimal + if remaining == 0 {
                0
            } else {
                (util - optimal_util) * sat_sub(max, optimal) / remaining
            }
        }
    }

    /// The all-zero configuration.
    pub open spec fn is_blank(self) -> bool {
        &&& self.deposit_limit == 0
        &&& self.borrow_limit == 0
        &&& self.min_borrow_rate_bps == 0
        &&& self.optimal_borrow_rate_bps == 0
        &&& self.max_borrow_rate_bps == 0
        &&& self.optimal_utilization_bps == 0
        &&& self.liquidation_bonus_pct == 0
        &&& self.protocol_fee == 0
        &&& self.status == 0
        &&& self.loan_to_value_pct == 0
        &&& self.liquidation_threshold_pct == 0
        &&& self.padding == 0
        &&& self.pyth_oracle.is_zero()
    }

    pub fn default() -> (c: ReserveConfig)
        ensures
            c.is_blank(),
    {
        ReserveConfig {
            deposit_limit: 0,
            borrow_limit: 0,
            min_borrow_rate_bps: 0,
            optimal_borrow_rate_bps: 0,
            max_borrow_rate_bps: 0,
            optimal_utilization_bps: 0,
            liquidation_bonus_pct: 0,
            protocol_fee: 0,
            status: 0,
            loan_to_value_pct: 0,
            liquidation_threshold_pct: 0,
            padding: 0,
            pyth_oracle: Pubkey::zero(),
        }
    }

    /// Stores the parameters if they form a valid configuration; an invalid
    /// configuration is refused and the old one kept.
    /// Stores the parameters, then checks them: an invalid configuration is
    /// reported (and left in place).
    pub fn init(&mut self, params: InitReserveConfigParams) -> (r: Result<(), LendingError>)
        ensures
            *final(self) == params.to_config(),
            params.to_config().is_valid() ==> r is Ok,
            !params.to_config().is_valid() ==> r == Err::<(), LendingError>(
                LendingError::InvalidConfig,
            ),
    {
        *self = ReserveConfig {
            deposit_limit: params.deposit_limit,
            borrow_limit: params.borrow_limit,
            min_borrow_rate_bps: params.min_borrow_rate_bps,
            optimal_borrow_rate_bps: params.optimal_borrow_rate_bps,
            max_borrow_rate_bps: params.max_borrow_rate_bps,
            optimal_utilization_bps: params.optimal_utilization_bps,
            liquidation_bonus_pct: params.liquidation_bonus_pct,
            protocol_fee: params.protocol_fee,
            status: params.status,
            loan_to_value_pct: params.loan_to_value_pct,
            liquidation_threshold_pct: params.liquidation_threshold_pct,
            padding: 0,
            pyth_oracle: params.pyth_oracle,
        };
        self.validate()
    }

    /// Replaces the configuration by a valid one; an invalid one is refused.
    pub fn update(&mut self, new_config: ReserveConfig) -> (r: Result<(), LendingError>)
        ensures
            new_config.is_valid() ==> r is Ok && *final(self) == new_config,
            !new_config.is_valid() ==> r == Err::<(), LendingError>(LendingError::InvalidConfig)
                && *final(self) == *old(self),
    {
        new_config.validate()?;
        *self = new_config;
        Ok(())
    }

    pub fn is_active(&self) -> (b: bool)
        ensures
            b == (self.status == 0),
    {
        self.status == 0
    }

    pub fn is_frozen(&self) -> (b: bool)
        ensures
            b == (self.status == 1),
    {
        self.status == 1
    }

    /// The borrow rate at a utilization, in basis points: the curve's value
    /// stored in a `u16` (truncated to its low 16 bits where it does not fit).
    pub fn borrow_rate(&self, utilization_bps: u16) -> (r: Result<u16, LendingError>)
        ensures
            r == Ok::<u16, LendingError>(self.rate_curve(utilization_bps as int) as u16),
    {
        let util = utilization_bps as u64;
        let optimal_util = self.optimal_utilization_bps as u64;

        let rate: u64 = if util <= optimal_util {
            let min: u64 = self.min_borrow_rate_bps as u64;
            let optimal: u64 = self.optimal_borrow_rate_bps as u64;
            let spread: u64 = optimal.saturating_sub(min);
            proof {
                assert(util * spread <= 0xffff * 0xffff) by (nonlinear_arith)
                    requires
                        util <= 0xffff,
                        spread <= 0xffff,
                ;
            }
            let slope_numerator: u64 = match util.checked_mul(spread) {
                Some(v) => v,
                None => {
                    return Err(LendingError::MathOverflow);
                },
            };
            let slope: u64 = if optimal_util == 0 {
                0
            } else {
                slope_numerator / optimal_util
            };
            proof {
                assert(slope <= slope_numerator) by (nonlinear_arith)
                    requires
                        optimal_util == 0 ==> slope == 0,
                        optimal_util > 0 ==> slope == slope_numerator / optimal_util,
                ;
            }
            match min.checked_add(slope) {
                Some(v) => v,
                None => {
                    return Err(LendingError::MathOverflow);
                },
            }
        } else {
            let optimal: u64 = self.optimal_borrow_rate_bps as u64;
            let max: u64 = self.max_borrow_rate_bps as u64;
            let excess_util: u64 = util.saturating_sub(optimal_util);
            let remaining_util: u64 = BPS_SCALER.saturating_sub(optimal_util);
            let spread: u64 = max.saturating_sub(optimal);
            proof {
                assert(excess_util * spread <= 0xffff * 0xffff) by (nonlinear_arith)
                    requires
                        excess_util <= 0xffff,
                        spread <= 0xffff,
                ;
            }
            let slope_numerator: u64 = match excess_util.checked_mul(spread) {
                Some(v) => v,
                None => {
                    return Err(LendingError::MathOverflow);
                },
            };
            let slope: u64 = if remaining_util == 0 {
                0
            } else {
                slope_numerator / remaining_util
            };
            proof {
                assert(slope <= slope_numerator) by (nonlinear_arith)
                    requires
                        remaining_util == 0 ==> slope == 0,
                        remaining_util > 0 ==> slope == slope_numerator / remaining_util,
                ;
            }
            match optimal.checked_add(slope) {
                Some(v) => v,
                None => {
                    return Err(LendingError::MathOverflow);
                },
            }
        };
        Ok(rate as u16)
    }

    /// Checks the configuration's invariants.
    pub fn validate(&self) -> (r: Result<(), LendingError>)
        ensures
            self.is_valid() ==> r is Ok,
            !self.is_valid() ==> r == Err::<(), LendingError>(LendingError::InvalidConfig),
    {
        if !(self.loan_to_value_pct < self.liquidation_threshold_pct) {
            return Err(LendingError::InvalidConfig);
        }
        if !(self.liquidation_threshold_pct <= MAX_LIQUIDATION_THRESHOLD_PCT) {
            return Err(LendingError::InvalidConfig);
        }
        if !(self.min_borrow_rate_bps <= self.optimal_borrow_rate_bps
            && self.optimal_borrow_rate_bps <= self.max_borrow_rate_bps) {
            return Err(LendingError::InvalidConfig);
        }
        if !(self.optimal_utilization_bps <= MAX_UTILIZATION_BPS) {
            return Err(LendingError::InvalidConfig);
        }
        if !(self.protocol_fee <= MAX_PROTOCOL_FEE_BPS) {
            return Err(LendingError::InvalidConfig);
        }
        Ok(())
    }
}

} // verus!
