//! Error taxonomy shared by the oracle and claims contracts.
use vstd::prelude::*;

verus! {

/// Typed failure of a contract call; every failing call leaves the
/// contract's state as it was.
#[derive(Clone, Copy, Debug, PartialEq, Eq, Structural)]
pub enum ContractError {
    Unauthorized,
    Paused,
    InvalidInput,
    InsufficientFunds,
    NotFound,
    AlreadyExists,
    InvalidState,
    NotInitialized,
    AlreadyInitialized,
    OracleValidationFailed,
    InsufficientOracleSubmissions,
    OracleDataStale,
    OracleOutlierDetected,
    InvalidRole,
    RoleNotFound,
    NotTrustedContract,
    /// A cross-contract call into the risk pool did not succeed.
    RiskPoolCallFailed,
    InvalidClaimState,
    InvalidAmount,
    CoverageExceeded,
    Overflow,
}

/// Numeric code of each error, stable for cross-contract callers.
pub open spec fn error_code(e: ContractError) -> u32 {
    match e {
        ContractError::Unauthorized => 1,
        ContractError::Paused => 2,
        ContractError::InvalidInput => 3,
        ContractError::InsufficientFunds => 4,
        ContractError::NotFound => 5,
        ContractError::AlreadyExists => 6,
        ContractError::InvalidState => 7,
        ContractError::NotInitialized => 9,
        ContractError::AlreadyInitialized => 10,
        ContractError::OracleValidationFailed => 11,
        ContractError::InsufficientOracleSubmissions => 12,
        ContractError::OracleDataStale => 13,
        ContractError::OracleOutlierDetected => 14,
        ContractError::InvalidRole => 15,
        ContractError::RoleNotFound => 16,
        ContractError::NotTrustedContract => 17,
        ContractError::RiskPoolCallFailed => 18,
        ContractError::InvalidClaimState => 102,
        ContractError::InvalidAmount => 103,
        ContractError::CoverageExceeded => 105,
        ContractError::Overflow => 107,
    }
}

impl ContractError {
    /// Stable numeric code of the error, shared with cross-contract callers.
    pub fn code(&self) -> (c: u32)
        ensures
            c == error_code(*self),
    {
        match self {
            ContractError::Unauthorized => 1,
            ContractError::Paused => 2,
            ContractError::InvalidInput => 3,
            ContractError::InsufficientFunds => 4,
            ContractError::NotFound => 5,
            ContractError::AlreadyExists => 6,
            ContractError::InvalidState => 7,
            ContractError::NotInitialized => 9,
            ContractError::AlreadyInitialized => 10,
            ContractError::OracleValidationFailed => 11,
            ContractError::InsufficientOracleSubmissions => 12,
            ContractError::OracleDataStale => 13,
            ContractError::OracleOutlierDetected => 14,
            ContractError::InvalidRole => 15,
            ContractError::RoleNotFound => 16,
            ContractError::NotTrustedContract => 17,
            ContractError::RiskPoolCallFailed => 18,
            ContractError::InvalidClaimState => 102,
            ContractError::InvalidAmount => 103,
            ContractError::CoverageExceeded => 105,
            ContractError::Overflow => 107,
        }
    }
}

} // verus!
