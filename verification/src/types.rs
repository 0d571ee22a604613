use vstd::prelude::*;

use crate::table::TableKey;

verus! {

/// Whether an address names an account or a deployed contract.
#[derive(Clone, Copy, Debug, PartialEq, Eq, Hash, Structural)]
pub enum AddressKind {
    /// An account, named by its Ed25519 public key.
    Account,
    /// A contract, named by the hash of its identifier.
    Contract,
}

/// An address on the ledger: its kind and its 32-byte payload, held as two
/// big-endian 128-bit halves.
#[derive(Clone, Copy, Debug, PartialEq, Eq, Hash, Structural)]
pub struct Address {
    pub kind: AddressKind,
    pub high: u128,
    pub low: u128,
}

impl TableKey for Address {
    fn same(&self, other: &Self) -> (r: bool) {
        *self == *other
    }
}

/// The reputation that the registry assigns to a contract.
#[derive(Clone, Copy, Debug, PartialEq, Eq, Structural)]
pub enum ReputationStatus {
    Verified,
    Trusted,
    Warning,
    Scam,
    Suspended,
    Unknown,
}

/// The severity of the risk that a contract poses.
#[derive(Clone, Copy, Debug, PartialEq, Eq, Structural)]
pub enum RiskLevel {
    Low,
    Medium,
    High,
    Critical,
}

/// The reputation profile kept for one contract.
#[derive(Clone, Copy, Debug, PartialEq, Eq)]
pub struct ContractRecord {
    /// The contract being rated.
    pub contract_address: Address,
    pub reputation_status: ReputationStatus,
    pub risk_level: RiskLevel,
    /// From 0 (safest) to 100 (highest risk).
    pub risk_score: u32,
    /// Who reported or certified this profile.
    pub reporter: Address,
    /// Ledger time at which the profile was first registered.
    pub timestamp: u64,
    /// Hash of the audit report or verification data.
    pub evidence_hash: [u8; 32],
    /// 1 at registration, one more at each update.
    pub version: u32,
    /// Ledger time of the last registration or update.
    pub last_updated: u64,
}

/// Whether a status counts as verified: `Verified` or `Trusted`.
pub open spec fn spec_is_verified_status(status: ReputationStatus) -> bool {
    status is Verified || status is Trusted
}

/// Whether a status counts as verified: `Verified` or `Trusted`.
pub fn is_verified_status(status: ReputationStatus) -> (r: bool)
    ensures
        r == spec_is_verified_status(status),
{
    match status {
        ReputationStatus::Verified | ReputationStatus::Trusted => true,
        _ => false,
    }
}

} // verus!
