use vstd::prelude::*;

verus! {

/// Every way a lending operation can be refused.
#[derive(Debug, Clone, Copy, PartialEq, Eq, Structural)]
pub enum LendingError {
    MathOverflow,
    InvalidVersion,
    InvalidFee,
    InsufficientLiquidity,
    BorrowRateZeroFound,
    ZeroSlotsElapsed,
    InvalidConfig,
    DepositLimitExceeded,
    BorrowLimitExceeded,
    InsufficientCollateral,
    ObligationDepositsFull,
    ObligationBorrowsFull,
    DepositNotFound,
    BorrowNotFound,
    BorrowRateDecreased,
    InvalidAmount,
    PriceStale,
    PriceNotValid,
    PriceConfidenceTooWide,
    UnhealthyObligation,
    ObligationStale,
    ObligationHealthy,
    PrivateObligationNotInitialized,
    AlreadyInitialized,
    AbortedComputation,
    ClusterNotSet,
}

/// The human-readable message of each error.
pub open spec fn error_message(e: LendingError) -> Seq<char> {
    match e {
        LendingError::MathOverflow => "Math operation overflow"@,
        LendingError::InvalidVersion => "Invalid version found"@,
        LendingError::InvalidFee => "Invalid protocol fee"@,
        LendingError::InsufficientLiquidity => "Reserve does not have sufficient liquidity"@,
        LendingError::BorrowRateZeroFound => "Borrow rate cannot be zero"@,
        LendingError::ZeroSlotsElapsed => "Slots not elapsed yet"@,
        LendingError::InvalidConfig => "Invalid reserve config value"@,
        LendingError::DepositLimitExceeded => "Deposit limit exceeded"@,
        LendingError::BorrowLimitExceeded => "Borrow limit exceeded"@,
        LendingError::InsufficientCollateral => "Insufficient collateral supply to burn"@,
        LendingError::ObligationDepositsFull => "No empty deposit slot available in obligation"@,
        LendingError::ObligationBorrowsFull => "No empty borrow slot available in obligation"@,
        LendingError::DepositNotFound => "Deposit reserve not found in obligation"@,
        LendingError::BorrowNotFound => "Borrow reserve not found in obligation"@,
        LendingError::BorrowRateDecreased => "Borrow rate decreased unexpectedly"@,
        LendingError::InvalidAmount => "Invalid amount send dby user"@,
        LendingError::PriceStale => "Oracle price is stale"@,
        LendingError::PriceNotValid => "Oracle price is not valid"@,
        LendingError::PriceConfidenceTooWide => "Oracle confidence interval too wide"@,
        LendingError::UnhealthyObligation => "Obligation is unhealthy"@,
        LendingError::ObligationStale => "Obligation must be refreshed before borrowing"@,
        LendingError::ObligationHealthy => "Obligation is healthy and cannot be liquidated"@,
        LendingError::PrivateObligationNotInitialized => "Private obligation is not initialized"@,
        LendingError::AlreadyInitialized => "Account is already initialized"@,
        LendingError::AbortedComputation => "The computation was aborted"@,
        LendingError::ClusterNotSet => "Cluster not set"@,
    }
}

impl LendingError {
    /// The human-readable message attached to each error.
    pub fn message(&self) -> (m: &'static str)
        ensures
            m@ == error_message(*self),
    {
        match self {
            LendingError::MathOverflow => "Math operation overflow",
            LendingError::InvalidVersion => "Invalid version found",
            LendingError::InvalidFee => "Invalid protocol fee",
            LendingError::InsufficientLiquidity => "Reserve does not have sufficient liquidity",
            LendingError::BorrowRateZeroFound => "Borrow rate cannot be zero",
            LendingError::ZeroSlotsElapsed => "Slots not elapsed yet",
            LendingError::InvalidConfig => "Invalid reserve config value",
            LendingError::DepositLimitExceeded => "Deposit limit exceeded",
            LendingError::BorrowLimitExceeded => "Borrow limit exceeded",
            LendingError::InsufficientCollateral => "Insufficient collateral supply to burn",
            LendingError::ObligationDepositsFull => "No empty deposit slot available in obligation",
            LendingError::ObligationBorrowsFull => "No empty borrow slot available in obligation",
            LendingError::DepositNotFound => "Deposit reserve not found in obligation",
            LendingError::BorrowNotFound => "Borrow reserve not found in obligation",
            LendingError::BorrowRateDecreased => "Borrow rate decreased unexpectedly",
            LendingError::InvalidAmount => "Invalid amount send dby user",
            LendingError::PriceStale => "Oracle price is stale",
            LendingError::PriceNotValid => "Oracle price is not valid",
            LendingError::PriceConfidenceTooWide => "Oracle confidence interval too wide",
            LendingError::UnhealthyObligation => "Obligation is unhealthy",
            LendingError::ObligationStale => "Obligation must be refreshed before borrowing",
            LendingError::ObligationHealthy => "Obligation is healthy and cannot be liquidated",
            LendingError::PrivateObligationNotInitialized => "Private obligation is not initialized",
            LendingError::AlreadyInitialized => "Account is already initialized",
            LendingError::AbortedComputation => "The computation was aborted",
            LendingError::ClusterNotSet => "Cluster not set",
        }
    }
}

} // verus!
