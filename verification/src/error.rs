//! The failures that the ledger reports.

use vstd::prelude::*;

verus! {

/// Why an operation on the registry or on an obligation was refused.
#[derive(Clone, Copy, Debug, PartialEq, Eq, Structural)]
pub enum ErrorCode {
    AssetAlreadyExists,
    AssetNotFound,
    RiskParamAlreadyExists,
    DepositNotFound,
    BorrowNotFound,
    InsufficientDeposit,
    InsufficientBorrow,
    Unhealthy,
    MathOverflow,
    WrongOracleFeed,
    InvalidOracleAccounts,
    MissingOraclePrice,
    PythPriceTooOld,
    InsufficientCollateral,
    InvalidPriceUpdate,
    CapacityExceeded,
}

/// Why a price resolver had no price to give for a feed.
#[derive(Clone, Copy, Debug, PartialEq, Eq, Structural)]
pub enum OracleFailure {
    /// The resolver holds a price, but for another feed.
    NotFound,
    /// The price was published longer ago than the caller accepts.
    TooOld,
    /// The resolver holds no fully verified price update at all.
    Unavailable,
}

impl ErrorCode {
    /// The error that a caller sees when a price that it asked for is missing.
    pub open spec fn of_oracle(failure: OracleFailure) -> ErrorCode {
        match failure {
            OracleFailure::NotFound => ErrorCode::MissingOraclePrice,
            OracleFailure::TooOld => ErrorCode::PythPriceTooOld,
            OracleFailure::Unavailable => ErrorCode::InvalidPriceUpdate,
        }
    }

    /// Computes [`ErrorCode::of_oracle`].
    pub fn from_oracle(failure: OracleFailure) -> (code: ErrorCode)
        ensures
            code == ErrorCode::of_oracle(failure),
    {
        match failure {
            OracleFailure::NotFound => ErrorCode::MissingOraclePrice,
            OracleFailure::TooOld => ErrorCode::PythPriceTooOld,
            OracleFailure::Unavailable => ErrorCode::InvalidPriceUpdate,
        }
    }

    /// The text that describes this error.
    pub open spec fn spec_message(self) -> Seq<char> {
        match self {
            ErrorCode::AssetAlreadyExists => "Asset already exists with this ID"@,
            ErrorCode::AssetNotFound => "Asset not found in registry"@,
            ErrorCode::RiskParamAlreadyExists => "Risk parameter already exists for this pair"@,
            ErrorCode::DepositNotFound => "Deposit not found in obligation"@,
            ErrorCode::BorrowNotFound => "Borrow not found in obligation"@,
            ErrorCode::InsufficientDeposit => "Insufficient deposit amount"@,
            ErrorCode::InsufficientBorrow => "Insufficient borrow amount"@,
            ErrorCode::Unhealthy => "Obligation health score is below minimum threshold"@,
            ErrorCode::MathOverflow => "Math operation overflowed"@,
            ErrorCode::WrongOracleFeed => "Wrong Pyth feed ID provided for asset"@,
            ErrorCode::InvalidOracleAccounts => "Invalid Pyth price update accounts provided"@,
            ErrorCode::MissingOraclePrice => "Missing Pyth price for asset"@,
            ErrorCode::PythPriceTooOld => "Pyth price is too old"@,
            ErrorCode::InsufficientCollateral => "Insufficient collateral"@,
            ErrorCode::InvalidPriceUpdate => "Invalid price update"@,
            ErrorCode::CapacityExceeded => "Capacity of the list is exhausted"@,
        }
    }

    /// Returns the text that describes this error.
    pub fn message(self) -> (text: &'static str)
        ensures
            text@ == self.spec_message(),
    {
        match self {
            ErrorCode::AssetAlreadyExists => "Asset already exists with this ID",
            ErrorCode::AssetNotFound => "Asset not found in registry",
            ErrorCode::RiskParamAlreadyExists => "Risk parameter already exists for this pair",
            ErrorCode::DepositNotFound => "Deposit not found in obligation",
            ErrorCode::BorrowNotFound => "Borrow not found in obligation",
            ErrorCode::InsufficientDeposit => "Insufficient deposit amount",
            ErrorCode::InsufficientBorrow => "Insufficient borrow amount",
            ErrorCode::Unhealthy => "Obligation health score is below minimum threshold",
            ErrorCode::MathOverflow => "Math operation overflowed",
            ErrorCode::WrongOracleFeed => "Wrong Pyth feed ID provided for asset",
            ErrorCode::InvalidOracleAccounts => "Invalid Pyth price update accounts provided",
            ErrorCode::MissingOraclePrice => "Missing Pyth price for asset",
            ErrorCode::PythPriceTooOld => "Pyth price is too old",
            ErrorCode::InsufficientCollateral => "Insufficient collateral",
            ErrorCode::InvalidPriceUpdate => "Invalid price update",
            ErrorCode::CapacityExceeded => "Capacity of the list is exhausted",
        }
    }
}

} // verus!
