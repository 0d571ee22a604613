use vstd::prelude::*;

use crate::access_control;
use crate::errors::ContractError;
use crate::metadata::SEMANTIC_VERSION;
use crate::storage::{self, spec_add_contract_to_list, spec_list_records,
    spec_remove_contract_from_list, Storage, StorageView};
use crate::types::{
    is_verified_status, spec_is_verified_status, Address, ContractRecord, ReputationStatus,
    RiskLevel,
};
use crate::validation;

verus! {

/// The record that registration creates: version 1, first registered and
/// last updated at `now`.
pub open spec fn new_record(
    contract: Address,
    status: ReputationStatus,
    risk_level: RiskLevel,
    risk_score: u32,
    reporter: Address,
    evidence_hash: [u8; 32],
    now: u64,
) -> ContractRecord {
    ContractRecord {
        contract_address: contract,
        reputation_status: status,
        risk_level,
        risk_score,
        reporter,
        timestamp: now,
        evidence_hash,
        version: 1,
        last_updated: now,
    }
}

/// The record that an update leaves: the new rating, reporter and evidence,
/// one version more, last updated at `now`; the rated address and the first
/// registration time stay.
pub open spec fn updated_record(
    old_record: ContractRecord,
    status: ReputationStatus,
    risk_level: RiskLevel,
    risk_score: u32,
    reporter: Address,
    evidence_hash: [u8; 32],
    now: u64,
) -> ContractRecord {
    ContractRecord {
        reputation_status: status,
        risk_level,
        risk_score,
        reporter,
        evidence_hash,
        version: (old_record.version + 1) as u32,
        last_updated: now,
        ..old_record
    }
}

/// Why a registration or an update is refused before the record is looked
/// at, checked in this order: no administrator, a risk score above 100, a
/// contract that reports on itself.
pub open spec fn input_refusal(v: StorageView, contract: Address, risk_score: u32, reporter: Address) -> Option<
    ContractError,
> {
    if v.admin is None {
        Some(ContractError::Unauthorized)
    } else if risk_score > 100 {
        Some(ContractError::InvalidRiskScore)
    } else if contract == reporter {
        Some(ContractError::InvalidAddress)
    } else {
        None
    }
}

/// Storage after registering `contract`: its new record is stored and it is
/// appended to the list. Refused as `input_refusal` says, then with
/// `AlreadyExists` when `contract` has a record.
pub open spec fn spec_register_contract(
    v: StorageView,
    contract: Address,
    status: ReputationStatus,
    risk_level: RiskLevel,
    risk_score: u32,
    reporter: Address,
    evidence_hash: [u8; 32],
    now: u64,
) -> Result<StorageView, ContractError> {
    match input_refusal(v, contract, risk_score, reporter) {
        Some(e) => Err(e),
        None => if v.records.contains_key(contract) {
            Err(ContractError::AlreadyExists)
        } else {
            let record = new_record(
                contract,
                status,
                risk_level,
                risk_score,
                reporter,
                evidence_hash,
                now,
            );
            Ok(
                spec_add_contract_to_list(
                    StorageView { records: v.records.insert(contract, record), ..v },
                    contract,
                ),
            )
        },
    }
}

/// Storage after updating the record of `contract`. Refused as
/// `input_refusal` says, then with `NotFound` when `contract` has no record.
pub open spec fn spec_update_reputation(
    v: StorageView,
    contract: Address,
    status: ReputationStatus,
    risk_level: RiskLevel,
    risk_score: u32,
    reporter: Address,
    evidence_hash: [u8; 32],
    now: u64,
) -> Result<StorageView, ContractError> {
    match input_refusal(v, contract, risk_score, reporter) {
        Some(e) => Err(e),
        None => if !v.records.contains_key(contract) {
            Err(ContractError::NotFound)
        } else {
            let record = updated_record(
                v.records[contract],
                status,
                risk_level,
                risk_score,
                reporter,
                evidence_hash,
                now,
            );
            Ok(StorageView { records: v.records.insert(contract, record), ..v })
        },
    }
}

/// Storage after removing `contract`: it leaves the list and its record is
/// deleted. Refused with `Unauthorized` when no administrator is configured,
/// with `NotFound` when `contract` has no record, and as taking it off the
/// list is refused.
pub open spec fn spec_remove_contract(v: StorageView, contract: Address) -> Result<
    StorageView,
    ContractError,
> {
    if v.admin is None {
        Err(ContractError::Unauthorized)
    } else if !v.records.contains_key(contract) {
        Err(ContractError::NotFound)
    } else {
        match spec_remove_contract_from_list(v, contract) {
            Ok(w) => Ok(StorageView { records: w.records.remove(contract), ..w }),
            Err(e) => Err(e),
        }
    }
}

/// Storage after `initialize(admin)`; refused with `AlreadyExists` once an
/// administrator is configured.
pub open spec fn spec_initialize(v: StorageView, admin: Address) -> Result<
    StorageView,
    ContractError,
> {
    if v.admin is Some {
        Err(ContractError::AlreadyExists)
    } else {
        Ok(StorageView { admin: Some(admin), ..v })
    }
}

/// Storage after `transfer_admin(new_admin)`; refused with `Unauthorized`
/// when no administrator is configured.
pub open spec fn spec_transfer_admin(v: StorageView, new_admin: Address) -> Result<
    StorageView,
    ContractError,
> {
    if v.admin is None {
        Err(ContractError::Unauthorized)
    } else {
        Ok(StorageView { admin: Some(new_admin), ..v })
    }
}

/// Whether `contract` has a record whose status is `Verified` or `Trusted`.
pub open spec fn spec_is_verified(v: StorageView, contract: Address) -> bool {
    v.records.contains_key(contract) && spec_is_verified_status(
        v.records[contract].reputation_status,
    )
}

/// An operation's outcome on storage: on success the storage it leaves, on
/// refusal the same error and storage unchanged.
pub open spec fn outcome(
    r: Result<(), ContractError>,
    before: StorageView,
    after: StorageView,
    expected: Result<StorageView, ContractError>,
) -> bool {
    match expected {
        Ok(w) => r is Ok && after == w,
        Err(e) => r == Err::<(), ContractError>(e) && after == before,
    }
}

/// The storage an operation leaves: what it computes on success, the storage
/// as it was on refusal.
pub open spec fn storage_after(before: StorageView, expected: Result<StorageView, ContractError>) -> StorageView {
    match expected {
        Ok(w) => w,
        Err(_) => before,
    }
}

/// The reputation registry: each operation reads and writes the registry's
/// storage. Administrative operations need the authorisation of the
/// administrator that `access_control::require_admin` names; the caller
/// obtains it before the call.
pub struct RegistryContract;

impl RegistryContract {
    /// Configures the administrator; meant to be called once, right after deployment.
    pub fn initialize(store: &mut Storage, admin: Address) -> (r: Result<(), ContractError>)
        requires
            old(store).inv(),
        ensures
            final(store).inv(),
            outcome(r, old(store)@, final(store)@, spec_initialize(old(store)@, admin)),
    {
        access_control::set_initial_admin(store, &admin)?;
        Ok(())
    }

    /// Registers a new reputation profile for `contract`, recorded at ledger time `now`.
    pub fn register_contract(
        store: &mut Storage,
        contract: Address,
        status: ReputationStatus,
        risk_level: RiskLevel,
        risk_score: u32,
        reporter: Address,
        evidence_hash: [u8; 32],
        now: u64,
    ) -> (r: Result<(), ContractError>)
        requires
            old(store).inv(),
            spec_register_contract(
                old(store)@,
                contract,
                status,
                risk_level,
                risk_score,
                reporter,
                evidence_hash,
                now,
            ) is Ok ==> old(store)@.total() < u32::MAX,
        ensures
            final(store).inv(),
            outcome(
                r,
                old(store)@,
                final(store)@,
                spec_register_contract(
                    old(store)@,
                    contract,
                    status,
                    risk_level,
                    risk_score,
                    reporter,
                    evidence_hash,
                    now,
                ),
            ),
    {
        access_control::require_admin(store)?;
        validation::validate_risk_score(risk_score)?;
        validation::validate_reputation_status(status)?;
        validation::validate_addresses(&contract, &reporter)?;
        if storage::get_record(store, &contract).is_some() {
            return Err(ContractError::AlreadyExists);
        }
        let record = ContractRecord {
            contract_address: contract,
            reputation_status: status,
            risk_level,
            risk_score,
            reporter,
            timestamp: now,
            evidence_hash,
            version: 1,
            last_updated: now,
        };
        storage::set_record(store, &contract, &record);
        storage::add_contract_to_list(store, &contract);
        Ok(())
    }

    /// Updates the reputation profile of a registered contract at ledger time `now`.
    pub fn update_reputation(
        store: &mut Storage,
        contract: Address,
        status: ReputationStatus,
        risk_level: RiskLevel,
        risk_score: u32,
        reporter: Address,
        evidence_hash: [u8; 32],
        now: u64,
    ) -> (r: Result<(), ContractError>)
        requires
            old(store).inv(),
            spec_update_reputation(
                old(store)@,
                contract,
                status,
                risk_level,
                risk_score,
                reporter,
                evidence_hash,
                now,
            ) is Ok ==> old(store)@.records[contract].version < u32::MAX,
        ensures
            final(store).inv(),
            outcome(
                r,
                old(store)@,
                final(store)@,
                spec_update_reputation(
                    old(store)@,
                    contract,
                    status,
                    risk_level,
                    risk_score,
                    reporter,
                    evidence_hash,
                    now,
                ),
            ),
    {
        access_control::require_admin(store)?;
        validation::validate_risk_score(risk_score)?;
        validation::validate_reputation_status(status)?;
        validation::validate_addresses(&contract, &reporter)?;
        let mut record = match storage::get_record(store, &contract) {
            Some(rec) => rec,
            None => {
                return Err(ContractError::NotFound);
            },
        };
        record.reputation_status = status;
        record.risk_level = risk_level;
        record.risk_score = risk_score;
        record.reporter = reporter;
        record.evidence_hash = evidence_hash;
        record.version = record.version + 1;
        record.last_updated = now;
        storage::set_record(store, &contract, &record);
        Ok(())
    }

    /// The reputation profile of `contract`, if it is registered.
    pub fn get_reputation(store: &Storage, contract: Address) -> (r: Option<ContractRecord>)
        requires
            store.inv(),
        ensures
            r == store@.record_of(contract),
    {
        storage::get_record(store, &contract)
    }

    /// Whether `contract` is registered with status `Verified` or `Trusted`.
    pub fn is_verified(store: &Storage, contract: Address) -> (r: bool)
        requires
            store.inv(),
        ensures
            r == spec_is_verified(store@, contract),
    {
        match storage::get_record(store, &contract) {
            Some(record) => is_verified_status(record.reputation_status),
            None => false,
        }
    }

    /// Removes the reputation profile of `contract` from the registry.
    pub fn remove_contract(store: &mut Storage, contract: Address) -> (r: Result<
        (),
        ContractError,
    >)
        requires
            old(store).inv(),
        ensures
            final(store).inv(),
            outcome(r, old(store)@, final(store)@, spec_remove_contract(old(store)@, contract)),
    {
        access_control::require_admin(store)?;
        if storage::get_record(store, &contract).is_none() {
            return Err(ContractError::NotFound);
        }
        storage::remove_contract_from_list(store, &contract)?;
        storage::remove_record(store, &contract);
        Ok(())
    }

    /// The page of records listed at positions `offset..offset + limit`.
    pub fn list_contracts(store: &Storage, offset: u32, limit: u32) -> (r: Vec<ContractRecord>)
        requires
            store.inv(),
        ensures
            r@ == spec_list_records(store@, offset, limit),
    {
        storage::list_records(store, offset, limit)
    }

    /// The semantic version of the registry.
    pub fn version() -> (r: String)
        ensures
            r@ == SEMANTIC_VERSION@,
    {
        String::from_str(SEMANTIC_VERSION)
    }

    /// Hands the administrator role to `new_admin`.
    pub fn transfer_admin(store: &mut Storage, new_admin: Address) -> (r: Result<
        (),
        ContractError,
    >)
        requires
            old(store).inv(),
        ensures
            final(store).inv(),
            outcome(r, old(store)@, final(store)@, spec_transfer_admin(old(store)@, new_admin)),
    {
        access_control::transfer_admin(store, &new_admin)?;
        Ok(())
    }
}

} // verus!
