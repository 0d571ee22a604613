use vstd::prelude::*;

verus! {

/// The ways a registry operation can be refused.
#[derive(Clone, Copy, Debug, PartialEq, Eq, Structural)]
pub enum ContractError {
    /// The administrator is already configured, or a record for the contract already exists.
    AlreadyExists,
    /// No administrator is configured to authorise the operation.
    Unauthorized,
    /// No record exists for the contract.
    NotFound,
    /// The risk score is above 100.
    InvalidRiskScore,
    /// The rated contract and the reporter are the same address.
    InvalidAddress,
    /// The list index disagrees with the stored count of contracts.
    StorageFailure,
}

} // verus!
