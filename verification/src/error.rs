//! Failures of the launchpad and the family each one belongs to.

use vstd::prelude::*;

verus! {

/// The four families into which every failure of the launchpad falls.
///
/// A caller can tell from the family alone how to react: correct a parameter,
/// wait for another state, report an arithmetic limit, or retry the trade on
/// other terms.
#[derive(Clone, Copy, Debug, PartialEq, Eq, Structural)]
pub enum ErrorKind {
    /// A parameter was out of range.
    Validation,
    /// The platform, the campaign or the caller's standing forbids the operation.
    State,
    /// A checked integer operation overflowed, underflowed or divided by zero.
    Arithmetic,
    /// The trade cannot settle on the terms the trader asked for.
    Economic,
}

/// Every way in which an operation of the launchpad can fail.
#[derive(Clone, Copy, Debug, PartialEq, Eq, Structural)]
pub enum LaunchpadError {
    /// Platform is currently paused.
    PlatformPaused,
    /// Launchpad is not active.
    LaunchpadNotActive,
    /// Launchpad has already graduated.
    LaunchpadAlreadyGraduated,
    /// Unauthorized access.
    Unauthorized,
    /// Invalid fee percentage.
    InvalidFeeBasisPoints,
    /// Invalid creator fee.
    InvalidCreatorFee,
    /// Insufficient SOL amount.
    InsufficientSolAmount,
    /// Insufficient token amount.
    InsufficientTokenAmount,
    /// Slippage tolerance exceeded.
    SlippageExceeded,
    /// Minimum tokens output not met.
    MinTokensNotMet,
    /// Minimum SOL output not met.
    MinSolNotMet,
    /// Maximum supply exceeded.
    MaxSupplyExceeded,
    /// Graduation criteria not met.
    GraduationCriteriaNotMet,
    /// Invalid curve parameters.
    InvalidCurveParams,
    /// Arithmetic overflow.
    ArithmeticOverflow,
    /// Arithmetic underflow.
    ArithmeticUnderflow,
    /// Division by zero.
    DivisionByZero,
    /// Price calculation failed.
    PriceCalculationFailed,
    /// Invalid token mint.
    InvalidTokenMint,
    /// Invalid account owner.
    InvalidAccountOwner,
    /// Account not initialized.
    AccountNotInitialized,
    /// Invalid PDA derivation.
    InvalidPDA,
    /// Token name too long.
    TokenNameTooLong,
    /// Token symbol too long.
    TokenSymbolTooLong,
    /// Metadata URI too long.
    MetadataUriTooLong,
    /// Invalid decimals.
    InvalidDecimals,
    /// Meteora pool creation failed.
    MeteoraPoolCreationFailed,
    /// Liquidity provision failed.
    LiquidityProvisionFailed,
    /// Invalid time limit.
    InvalidTimeLimit,
    /// Invalid total supply.
    InvalidTotalSupply,
}

impl LaunchpadError {
    /// The family of this failure.
    pub open spec fn spec_kind(self) -> ErrorKind {
        match self {
            LaunchpadError::InvalidFeeBasisPoints
            | LaunchpadError::InvalidCreatorFee
            | LaunchpadError::InvalidCurveParams
            | LaunchpadError::TokenNameTooLong
            | LaunchpadError::TokenSymbolTooLong
            | LaunchpadError::MetadataUriTooLong
            | LaunchpadError::InvalidDecimals
            | LaunchpadError::InvalidTimeLimit
            | LaunchpadError::InvalidTotalSupply => ErrorKind::Validation,
            LaunchpadError::PlatformPaused
            | LaunchpadError::LaunchpadNotActive
            | LaunchpadError::LaunchpadAlreadyGraduated
            | LaunchpadError::Unauthorized
            | LaunchpadError::GraduationCriteriaNotMet
            | LaunchpadError::InvalidTokenMint
            | LaunchpadError::InvalidAccountOwner
            | LaunchpadError::AccountNotInitialized
            | LaunchpadError::InvalidPDA
            | LaunchpadError::MeteoraPoolCreationFailed
            | LaunchpadError::LiquidityProvisionFailed => ErrorKind::State,
            LaunchpadError::ArithmeticOverflow
            | LaunchpadError::ArithmeticUnderflow
            | LaunchpadError::DivisionByZero
            | LaunchpadError::PriceCalculationFailed => ErrorKind::Arithmetic,
            LaunchpadError::InsufficientSolAmount
            | LaunchpadError::InsufficientTokenAmount
            | LaunchpadError::SlippageExceeded
            | LaunchpadError::MinTokensNotMet
            | LaunchpadError::MinSolNotMet
            | LaunchpadError::MaxSupplyExceeded => ErrorKind::Economic,
        }
    }

    /// The family of this failure.
    pub fn kind(&self) -> (k: ErrorKind)
        ensures
            k == self.spec_kind(),
    {
        match self {
            LaunchpadError::InvalidFeeBasisPoints
            | LaunchpadError::InvalidCreatorFee
            | LaunchpadError::InvalidCurveParams
            | LaunchpadError::TokenNameTooLong
            | LaunchpadError::TokenSymbolTooLong
            | LaunchpadError::MetadataUriTooLong
            | LaunchpadError::InvalidDecimals
            | LaunchpadError::InvalidTimeLimit
            | LaunchpadError::InvalidTotalSupply => ErrorKind::Validation,
            LaunchpadError::PlatformPaused
            | LaunchpadError::LaunchpadNotActive
            | LaunchpadError::LaunchpadAlreadyGraduated
            | LaunchpadError::Unauthorized
            | LaunchpadError::GraduationCriteriaNotMet
            | LaunchpadError::InvalidTokenMint
            | LaunchpadError::InvalidAccountOwner
            | LaunchpadError::AccountNotInitialized
            | LaunchpadError::InvalidPDA
            | LaunchpadError::MeteoraPoolCreationFailed
            | LaunchpadError::LiquidityProvisionFailed => ErrorKind::State,
            LaunchpadError::ArithmeticOverflow
            | LaunchpadError::ArithmeticUnderflow
            | LaunchpadError::DivisionByZero
            | LaunchpadError::PriceCalculationFailed => ErrorKind::Arithmetic,
            LaunchpadError::InsufficientSolAmount
            | LaunchpadError::InsufficientTokenAmount
            | LaunchpadError::SlippageExceeded
            | LaunchpadError::MinTokensNotMet
            | LaunchpadError::MinSolNotMet
            | LaunchpadError::MaxSupplyExceeded => ErrorKind::Economic,
        }
    }

    /// The text that describes this failure to a person.
    pub open spec fn spec_message(self) -> Seq<char> {
        match self {
            LaunchpadError::PlatformPaused => "Platform is currently paused"@,
            LaunchpadError::LaunchpadNotActive => "Launchpad is not active"@,
            LaunchpadError::LaunchpadAlreadyGraduated => "Launchpad has already graduated"@,
            LaunchpadError::Unauthorized => "Unauthorized access"@,
            LaunchpadError::InvalidFeeBasisPoints => {
                "Invalid fee percentage - must be between 0-1000 basis points"@
            },
            LaunchpadError::InvalidCreatorFee => {
                "Invalid creator fee - must be between 0-500 basis points"@
            },
            LaunchpadError::InsufficientSolAmount => "Insufficient SOL amount"@,
            LaunchpadError::InsufficientTokenAmount => "Insufficient token amount"@,
            LaunchpadError::SlippageExceeded => "Slippage tolerance exceeded"@,
            LaunchpadError::MinTokensNotMet => "Minimum tokens output not met"@,
            LaunchpadError::MinSolNotMet => "Minimum SOL output not met"@,
            LaunchpadError::MaxSupplyExceeded => "Maximum supply exceeded"@,
            LaunchpadError::GraduationCriteriaNotMet => "Graduation criteria not met"@,
            LaunchpadError::InvalidCurveParams => "Invalid curve parameters"@,
            LaunchpadError::ArithmeticOverflow => "Arithmetic overflow"@,
            LaunchpadError::ArithmeticUnderflow => "Arithmetic underflow"@,
            LaunchpadError::DivisionByZero => "Division by zero"@,
            LaunchpadError::PriceCalculationFailed => "Price calculation failed"@,
            LaunchpadError::InvalidTokenMint => "Invalid token mint"@,
            LaunchpadError::InvalidAccountOwner => "Invalid account owner"@,
            LaunchpadError::AccountNotInitialized => "Account not initialized"@,
            LaunchpadError::InvalidPDA => "Invalid PDA derivation"@,
            LaunchpadError::TokenNameTooLong => "Token name too long - max 32 characters"@,
            LaunchpadError::TokenSymbolTooLong => "Token symbol too long - max 8 characters"@,
            LaunchpadError::MetadataUriTooLong => "Metadata URI too long - max 200 characters"@,
            LaunchpadError::InvalidDecimals => "Invalid decimals - must be between 0-9"@,
            LaunchpadError::MeteoraPoolCreationFailed => "Meteora pool creation failed"@,
            LaunchpadError::LiquidityProvisionFailed => "Liquidity provision failed"@,
            LaunchpadError::InvalidTimeLimit => "Invalid time limit - must be in the future"@,
            LaunchpadError::InvalidTotalSupply => {
                "Invalid total supply - must be greater than zero"@
            },
        }
    }

    /// The text that describes this failure to a person.
    pub fn message(&self) -> (text: &'static str)
        ensures
            text@ == self.spec_message(),
    {
        match self {
            LaunchpadError::PlatformPaused => "Platform is currently paused",
            LaunchpadError::LaunchpadNotActive => "Launchpad is not active",
            LaunchpadError::LaunchpadAlreadyGraduated => "Launchpad has already graduated",
            LaunchpadError::Unauthorized => "Unauthorized access",
            LaunchpadError::InvalidFeeBasisPoints => {
                "Invalid fee percentage - must be between 0-1000 basis points"
            },
            LaunchpadError::InvalidCreatorFee => {
                "Invalid creator fee - must be between 0-500 basis points"
            },
            LaunchpadError::InsufficientSolAmount => "Insufficient SOL amount",
            LaunchpadError::InsufficientTokenAmount => "Insufficient token amount",
            LaunchpadError::SlippageExceeded => "Slippage tolerance exceeded",
            LaunchpadError::MinTokensNotMet => "Minimum tokens output not met",
            LaunchpadError::MinSolNotMet => "Minimum SOL output not met",
            LaunchpadError::MaxSupplyExceeded => "Maximum supply exceeded",
            LaunchpadError::GraduationCriteriaNotMet => "Graduation criteria not met",
            LaunchpadError::InvalidCurveParams => "Invalid curve parameters",
            LaunchpadError::ArithmeticOverflow => "Arithmetic overflow",
            LaunchpadError::ArithmeticUnderflow => "Arithmetic underflow",
            LaunchpadError::DivisionByZero => "Division by zero",
            LaunchpadError::PriceCalculationFailed => "Price calculation failed",
            LaunchpadError::InvalidTokenMint => "Invalid token mint",
            LaunchpadError::InvalidAccountOwner => "Invalid account owner",
            LaunchpadError::AccountNotInitialized => "Account not initialized",
            LaunchpadError::InvalidPDA => "Invalid PDA derivation",
            LaunchpadError::TokenNameTooLong => "Token name too long - max 32 characters",
            LaunchpadError::TokenSymbolTooLong => "Token symbol too long - max 8 characters",
            LaunchpadError::MetadataUriTooLong => "Metadata URI too long - max 200 characters",
            LaunchpadError::InvalidDecimals => "Invalid decimals - must be between 0-9",
            LaunchpadError::MeteoraPoolCreationFailed => "Meteora pool creation failed",
            LaunchpadError::LiquidityProvisionFailed => "Liquidity provision failed",
            LaunchpadError::InvalidTimeLimit => "Invalid time limit - must be in the future",
            LaunchpadError::InvalidTotalSupply => {
                "Invalid total supply - must be greater than zero"
            },
        }
    }
}

} // verus!
