use vstd::prelude::*;

use crate::errors::ContractError;
use crate::types::{Address, ReputationStatus};

verus! {

/// The highest risk score the registry accepts.
pub const MAX_RISK_SCORE: u32 = 100;

/// Accepts risk scores from 0 to 100.
pub fn validate_risk_score(risk_score: u32) -> (r: Result<(), ContractError>)
    ensures
        r == (if risk_score > MAX_RISK_SCORE {
            Err(ContractError::InvalidRiskScore)
        } else {
            Ok(())
        }),
{
    if risk_score > MAX_RISK_SCORE {
        Err(ContractError::InvalidRiskScore)
    } else {
        Ok(())
    }
}

/// Accepts every reputation status: each variant is a valid rating.
pub fn validate_reputation_status(status: ReputationStatus) -> (r: Result<(), ContractError>)
    ensures
        r == Ok::<(), ContractError>(()),
{
    match status {
        ReputationStatus::Verified
        | ReputationStatus::Trusted
        | ReputationStatus::Warning
        | ReputationStatus::Scam
        | ReputationStatus::Suspended
        | ReputationStatus::Unknown => Ok(()),
    }
}

/// Refuses a contract that would report on itself.
pub fn validate_addresses(contract: &Address, reporter: &Address) -> (r: Result<(), ContractError>)
    ensures
        r == (if *contract == *reporter {
            Err(ContractError::InvalidAddress)
        } else {
            Ok(())
        }),
{
    if *contract == *reporter {
        Err(ContractError::InvalidAddress)
    } else {
        Ok(())
    }
}

} // verus!
