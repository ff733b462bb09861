use vstd::prelude::*;

verus! {

/// Errors raised by the insurance fund.
#[derive(Clone, Copy, Debug, PartialEq, Eq, Structural)]
pub enum InsuranceFundError {
    MaxIFWithdrawReached,
    NoIFWithdrawAvailable,
    InvalidIFUnstake,
    InvalidIFUnstakeSize,
    InvalidIFUnstakeCancel,
    InvalidIFForNewStakes,
    InvalidIFRebase,
    InvalidInsuranceUnstakeSize,
    InsuranceFundOperationPaused,
    IFWithdrawRequestInProgress,
    NoIFWithdrawRequestInProgress,
    IFWithdrawRequestTooSmall,
    InvalidIFSharesDetected,
    InsufficientIFShares,
    TryingToRemoveLiquidityTooFast,
    AlreadyInitialized,
    NotAuthorized,
    AdminNotSet,
    FundDepositKilled,
    FundRequestWithdrawKilled,
    FundWithdrawKilled,
    InvalidConfiguration,
    ConversionOverflow,
    ArithmeticOverflow,
    UnsupportedToken,
    TooMuchInsurance,
    InvalidOracle,
    InvalidTimestamp,
    CostBasisUnderflow,
    InvalidIFDetected,
    QueryPoolFailed,
    PayInsuranceClaimFailed,
    InsufficientCollateral,
    ZeroAmount,
    ValueNotInitialized,
    MathError,
}

impl InsuranceFundError {
    /// The contract error number under which the error is reported on chain.
    pub fn code(&self) -> (c: u32)
        ensures
            c == self.spec_code(),
    {
        match self {
            InsuranceFundError::MaxIFWithdrawReached => 0,
            InsuranceFundError::NoIFWithdrawAvailable => 1,
            InsuranceFundError::InvalidIFUnstake => 2,
            InsuranceFundError::InvalidIFUnstakeSize => 3,
            InsuranceFundError::InvalidIFUnstakeCancel => 4,
            InsuranceFundError::InvalidIFForNewStakes => 5,
            InsuranceFundError::InvalidIFRebase => 6,
            InsuranceFundError::InvalidInsuranceUnstakeSize => 7,
            InsuranceFundError::InsuranceFundOperationPaused => 8,
            InsuranceFundError::IFWithdrawRequestInProgress => 9,
            InsuranceFundError::NoIFWithdrawRequestInProgress => 10,
            InsuranceFundError::IFWithdrawRequestTooSmall => 11,
            InsuranceFundError::InvalidIFSharesDetected => 12,
            InsuranceFundError::InsufficientIFShares => 13,
            InsuranceFundError::TryingToRemoveLiquidityTooFast => 14,
            InsuranceFundError::AlreadyInitialized => 15,
            InsuranceFundError::NotAuthorized => 16,
            InsuranceFundError::AdminNotSet => 17,
            InsuranceFundError::FundDepositKilled => 30,
            InsuranceFundError::FundRequestWithdrawKilled => 31,
            InsuranceFundError::FundWithdrawKilled => 32,
            InsuranceFundError::InvalidConfiguration => 21,
            InsuranceFundError::ConversionOverflow => 22,
            InsuranceFundError::ArithmeticOverflow => 23,
            InsuranceFundError::UnsupportedToken => 18,
            InsuranceFundError::TooMuchInsurance => 20,
            InsuranceFundError::InvalidOracle => 19,
            InsuranceFundError::InvalidTimestamp => 24,
            InsuranceFundError::CostBasisUnderflow => 25,
            InsuranceFundError::InvalidIFDetected => 26,
            InsuranceFundError::QueryPoolFailed => 27,
            InsuranceFundError::PayInsuranceClaimFailed => 28,
            InsuranceFundError::InsufficientCollateral => 29,
            InsuranceFundError::ZeroAmount => 33,
            InsuranceFundError::ValueNotInitialized => 34,
            InsuranceFundError::MathError => 511,
        }
    }

    pub open spec fn spec_code(&self) -> u32 {
        match self {
            InsuranceFundError::MaxIFWithdrawReached => 0,
            InsuranceFundError::NoIFWithdrawAvailable => 1,
            InsuranceFundError::InvalidIFUnstake => 2,
            InsuranceFundError::InvalidIFUnstakeSize => 3,
            InsuranceFundError::InvalidIFUnstakeCancel => 4,
            InsuranceFundError::InvalidIFForNewStakes => 5,
            InsuranceFundError::InvalidIFRebase => 6,
            InsuranceFundError::InvalidInsuranceUnstakeSize => 7,
            InsuranceFundError::InsuranceFundOperationPaused => 8,
            InsuranceFundError::IFWithdrawRequestInProgress => 9,
            InsuranceFundError::NoIFWithdrawRequestInProgress => 10,
            InsuranceFundError::IFWithdrawRequestTooSmall => 11,
            InsuranceFundError::InvalidIFSharesDetected => 12,
            InsuranceFundError::InsufficientIFShares => 13,
            InsuranceFundError::TryingToRemoveLiquidityTooFast => 14,
            InsuranceFundError::AlreadyInitialized => 15,
            InsuranceFundError::NotAuthorized => 16,
            InsuranceFundError::AdminNotSet => 17,
            InsuranceFundError::FundDepositKilled => 30,
            InsuranceFundError::FundRequestWithdrawKilled => 31,
            InsuranceFundError::FundWithdrawKilled => 32,
            InsuranceFundError::InvalidConfiguration => 21,
            InsuranceFundError::ConversionOverflow => 22,
            InsuranceFundError::ArithmeticOverflow => 23,
            InsuranceFundError::UnsupportedToken => 18,
            InsuranceFundError::TooMuchInsurance => 20,
            InsuranceFundError::InvalidOracle => 19,
            InsuranceFundError::InvalidTimestamp => 24,
            InsuranceFundError::CostBasisUnderflow => 25,
            InsuranceFundError::InvalidIFDetected => 26,
            InsuranceFundError::QueryPoolFailed => 27,
            InsuranceFundError::PayInsuranceClaimFailed => 28,
            InsuranceFundError::InsufficientCollateral => 29,
            InsuranceFundError::ZeroAmount => 33,
            InsuranceFundError::ValueNotInitialized => 34,
            InsuranceFundError::MathError => 511,
        }
    }
}

} // verus!
