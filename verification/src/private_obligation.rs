use vstd::prelude::*;

use crate::error::LendingError;
use crate::pubkey::Pubkey;

verus! {

/// A user's confidential position: the amounts live encrypted in `enc_state`;
/// only the flags and reserves are in the clear.
#[derive(Debug, Clone, Copy)]
pub struct PrivateObligation {
    pub bump: u8,
    /// The encrypted collateral and borrow amounts.
    pub enc_state: [[u8; 32]; 2],
    /// Nonce the encrypted state was produced with.
    pub nonce: u128,
    pub owner: Pubkey,
    pub lending_market: Pubkey,
    pub collateral_reserve: Pubkey,
    pub borrow_reserve: Pubkey,
    /// Set when the encrypted health check found the position under water.
    pub is_liquidatable: bool,
    /// Set once the encrypted state has been created.
    pub is_initialized: bool,
}

/// An encrypted position handed back by the confidential computation.
#[derive(Debug, Clone, Copy)]
pub struct EncryptedPosition {
    pub ciphertexts: [[u8; 32]; 2],
    pub nonce: u128,
}

/// Emitted when a position is found liquidatable.
#[derive(Debug, Clone, Copy)]
pub struct LiquidatableEvent {
    pub private_obligation: Pubkey,
    pub owner: Pubkey,
}

/// Sets the position up for `owner` in `lending_market`, with no reserves,
/// awaiting its encrypted state; refused once it has been initialized.
pub fn init_private_obligation(
    private_obligation: &mut PrivateObligation,
    bump: u8,
    owner: Pubkey,
    lending_market: Pubkey,
) -> (r: Result<(), LendingError>)
    ensures
        old(private_obligation).is_initialized ==> r == Err::<(), LendingError>(
            LendingError::AlreadyInitialized,
        ) && *final(private_obligation) == *old(private_obligation),
        !old(private_obligation).is_initialized ==> r is Ok && *final(private_obligation) == (
        PrivateObligation {
            bump,
            owner,
            lending_market,
            collateral_reserve: crate::pubkey::zero_key(),
            borrow_reserve: crate::pubkey::zero_key(),
            is_initialized: false,
            is_liquidatable: false,
            ..*old(private_obligation)
        }),
{
    if private_obligation.is_initialized {
        return Err(LendingError::AlreadyInitialized);
    }
    private_obligation.bump = bump;
    private_obligation.owner = owner;
    private_obligation.lending_market = lending_market;
    private_obligation.collateral_reserve = Pubkey::zero();
    private_obligation.borrow_reserve = Pubkey::zero();
    private_obligation.is_initialized = false;
    private_obligation.is_liquidatable = false;
    Ok(())
}

/// Stores the initial encrypted state and marks the position initialized;
/// an aborted computation (`None`) is refused.
pub fn init_position_2_callback(private_obligation: &mut PrivateObligation, output: Option<EncryptedPosition>) -> (r:
    Result<(), LendingError>)
    ensures
        output is None ==> r == Err::<(), LendingError>(LendingError::AbortedComputation)
            && *final(private_obligation) == *old(private_obligation),
        output matches Some(enc) ==> r is Ok && *final(private_obligation) == (PrivateObligation {
            enc_state: enc.ciphertexts,
            nonce: enc.nonce,
            is_initialized: true,
            ..*old(private_obligation)
        }),
{
    match output {
        Some(enc) => {
            private_obligation.enc_state = enc.ciphertexts;
            private_obligation.nonce = enc.nonce;
            private_obligation.is_initialized = true;
            Ok(())
        },
        None => Err(LendingError::AbortedComputation),
    }
}

/// Stores an updated encrypted state; an aborted computation (`None`) is refused.
pub fn store_encrypted_state(private_obligation: &mut PrivateObligation, output: Option<EncryptedPosition>) -> (r:
    Result<(), LendingError>)
    ensures
        output is None ==> r == Err::<(), LendingError>(LendingError::AbortedComputation)
            && *final(private_obligation) == *old(private_obligation),
        output matches Some(enc) ==> r is Ok && *final(private_obligation) == (PrivateObligation {
            enc_state: enc.ciphertexts,
            nonce: enc.nonce,
            ..*old(private_obligation)
        }),
{
    match output {
        Some(enc) => {
            private_obligation.enc_state = enc.ciphertexts;
            private_obligation.nonce = enc.nonce;
            Ok(())
        },
        None => Err(LendingError::AbortedComputation),
    }
}

/// Stores the state after an encrypted collateral increase.
pub fn add_collateral_2_callback(private_obligation: &mut PrivateObligation, output: Option<EncryptedPosition>) -> (r:
    Result<(), LendingError>)
    ensures
        output is None ==> r == Err::<(), LendingError>(LendingError::AbortedComputation)
            && *final(private_obligation) == *old(private_obligation),
        output matches Some(enc) ==> r is Ok && *final(private_obligation) == (PrivateObligation {
            enc_state: enc.ciphertexts,
            nonce: enc.nonce,
            ..*old(private_obligation)
        }),
{
    store_encrypted_state(private_obligation, output)
}

/// Stores the state after an encrypted borrow increase.
pub fn add_borrow_2_callback(private_obligation: &mut PrivateObligation, output: Option<EncryptedPosition>) -> (r:
    Result<(), LendingError>)
    ensures
        output is None ==> r == Err::<(), LendingError>(LendingError::AbortedComputation)
            && *final(private_obligation) == *old(private_obligation),
        output matches Some(enc) ==> r is Ok && *final(private_obligation) == (PrivateObligation {
            enc_state: enc.ciphertexts,
            nonce: enc.nonce,
            ..*old(private_obligation)
        }),
{
    store_encrypted_state(private_obligation, output)
}

/// Records the encrypted health check's answer: an unhealthy position becomes
/// liquidatable and an event is due (returned `true`); a healthy one is
/// cleared. An aborted computation (`None`) is refused.
pub fn check_health_callback(private_obligation: &mut PrivateObligation, output: Option<bool>) -> (r:
    Result<bool, LendingError>)
    ensures
        output is None ==> r == Err::<bool, LendingError>(LendingError::AbortedComputation)
            && *final(private_obligation) == *old(private_obligation),
        output matches Some(is_healthy) ==> r == Ok::<bool, LendingError>(!is_healthy)
            && *final(private_obligation) == (PrivateObligation {
            is_liquidatable: !is_healthy,
            ..*old(private_obligation)
        }),
{
    match output {
        Some(is_healthy) => {
            if !is_healthy {
                private_obligation.is_liquidatable = true;
                Ok(true)
            } else {
                private_obligation.is_liquidatable = false;
                Ok(false)
            }
        },
        None => Err(LendingError::AbortedComputation),
    }
}

/// A health check may only be asked for an initialized position.
pub fn private_check_liquidatable(private_obligation: &PrivateObligation) -> (r: Result<(), LendingError>)
    ensures
        private_obligation.is_initialized ==> r is Ok,
        !private_obligation.is_initialized ==> r == Err::<(), LendingError>(
            LendingError::PrivateObligationNotInitialized,
        ),
{
    if !private_obligation.is_initialized {
        return Err(LendingError::PrivateObligationNotInitialized);
    }
    Ok(())
}

} // verus!
