use vstd::prelude::*;

use crate::constants::MAX_PROTOCOL_FEE_BPS;
use crate::error::LendingError;
use crate::pubkey::Pubkey;

verus! {

/// Global configuration of one lending market.
#[derive(Debug, Clone, Copy)]
pub struct LendingMarket {
    pub version: u8,
    pub bump: u8,
    pub owner: Pubkey,
    pub emergency_pause: bool,
    pub quote_currency: [u8; 32],
    /// Protocol fee in basis points.
    pub protocol_fee_bps: u16,
    pub padding: [u64; 64],
}

pub struct InitializeLendingParams {
    pub bump: u8,
    pub owner: Pubkey,
    pub quote_currency: [u8; 32],
    pub protocol_fee_bps: u16,
}

impl LendingMarket {
    /// A market that was never initialized: version 0, everything zero.
    pub open spec fn is_blank(self) -> bool {
        &&& self.version == 0
        &&& self.bump == 0
        &&& self.owner.is_zero()
        &&& !self.emergency_pause
        &&& forall|i: int| 0 <= i < 32 ==> #[trigger] self.quote_currency@[i] == 0
        &&& self.protocol_fee_bps == 0
        &&& forall|i: int| 0 <= i < 64 ==> #[trigger] self.padding@[i] == 0
    }

    pub fn default() -> (m: LendingMarket)
        ensures
            m.is_blank(),
    {
        LendingMarket {
            version: 0,
            bump: 0,
            owner: Pubkey::zero(),
            emergency_pause: false,
            quote_currency: [0u8; 32],
            protocol_fee_bps: 0,
            padding: [0u64; 64],
        }
    }

    /// Resets the market and stores the parameters; the version becomes 1.
    pub fn init(&mut self, params: InitializeLendingParams) -> (r: Result<(), LendingError>)
        ensures
            r is Ok,
            final(self).version == 1,
            final(self).bump == params.bump,
            final(self).owner == params.owner,
            !final(self).emergency_pause,
            final(self).quote_currency == params.quote_currency,
            final(self).protocol_fee_bps == params.protocol_fee_bps,
            forall|i: int| 0 <= i < 64 ==> #[trigger] final(self).padding@[i] == 0,
    {
        *self = LendingMarket::default();
        self.version = 1;
        self.bump = params.bump;
        self.owner = params.owner;
        self.emergency_pause = false;
        self.quote_currency = params.quote_currency;
        self.protocol_fee_bps = params.protocol_fee_bps;
        Ok(())
    }

    /// Raises the version; a version that is not higher is refused.
    pub fn set_version(&mut self, version: u8) -> (r: Result<(), LendingError>)
        ensures
            version > old(self).version ==> r is Ok && *final(self) == (LendingMarket {
                version,
                ..*old(self)
            }),
            version <= old(self).version ==> r == Err::<(), LendingError>(
                LendingError::InvalidVersion,
            ) && *final(self) == *old(self),
    {
        if !(version > self.version) {
            return Err(LendingError::InvalidVersion);
        }
        self.version = version;
        Ok(())
    }

    pub fn set_emergency_pause(&mut self, emergency_pause: bool) -> (r: Result<(), LendingError>)
        ensures
            r is Ok,
            *final(self) == (LendingMarket { emergency_pause, ..*old(self) }),
    {
        self.emergency_pause = emergency_pause;
        Ok(())
    }

    /// Sets the protocol fee; more than `MAX_PROTOCOL_FEE_BPS` is refused.
    pub fn set_protocol_fees(&mut self, protocol_fees: u16) -> (r: Result<(), LendingError>)
        ensures
            protocol_fees <= MAX_PROTOCOL_FEE_BPS ==> r is Ok && *final(self) == (LendingMarket {
                protocol_fee_bps: protocol_fees,
                ..*old(self)
            }),
            protocol_fees > MAX_PROTOCOL_FEE_BPS ==> r == Err::<(), LendingError>(
                LendingError::InvalidFee,
            ) && *final(self) == *old(self),
    {
        if !(protocol_fees <= MAX_PROTOCOL_FEE_BPS) {
            return Err(LendingError::InvalidFee);
        }
        self.protocol_fee_bps = protocol_fees;
        Ok(())
    }

    pub fn is_paused(&self) -> (b: bool)
        ensures
            b == self.emergency_pause,
    {
        self.emergency_pause
    }
}

} // verus!
