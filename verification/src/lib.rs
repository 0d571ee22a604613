mod table;
pub mod access_control;
pub mod contract;
pub mod errors;
pub mod laws;
pub mod metadata;
pub mod storage;
pub mod types;
pub mod validation;

pub use crate::contract::RegistryContract;
pub use crate::errors::ContractError;
pub use crate::storage::{Storage, StorageEntries, StorageView};
pub use crate::table::{Table, TableKey};
pub use crate::types::{Address, AddressKind, ContractRecord, ReputationStatus, RiskLevel};
