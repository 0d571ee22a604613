use vstd::prelude::*;

use crate::contract::{
    storage_after,
    spec_is_verified,
    new_record, spec_initialize, spec_register_contract, spec_remove_contract,
    spec_transfer_admin, spec_update_reputation, updated_record,
};
use crate::errors::ContractError;
use crate::storage::{
    is_consistent, listing, page_end, records_between, spec_list_records, StorageView,
};
use crate::types::ContractRecord;
use crate::types::{spec_is_verified_status, Address, ReputationStatus, RiskLevel};

verus! {

/// A freshly deployed registry is consistent.
pub proof fn empty_storage_is_consistent()
    ensures
        is_consistent(StorageView::empty()),
        listing(StorageView::empty()) == Seq::<Address>::empty(),
{
    assert(listing(StorageView::empty()) =~= Seq::<Address>::empty());
}

/// Registering a contract keeps the registry consistent, appends the contract
/// to the list and stores its new record.
pub proof fn register_keeps_consistency(
    v: StorageView,
    contract: Address,
    status: ReputationStatus,
    risk_level: RiskLevel,
    risk_score: u32,
    reporter: Address,
    evidence_hash: [u8; 32],
    now: u64,
)
    requires
        is_consistent(v),
        v.total() < u32::MAX,
        spec_register_contract(
            v,
            contract,
            status,
            risk_level,
            risk_score,
            reporter,
            evidence_hash,
            now,
        ) is Ok,
    ensures
        ({
            let w = spec_register_contract(
                v,
                contract,
                status,
                risk_level,
                risk_score,
                reporter,
                evidence_hash,
                now,
            ).unwrap();
            &&& is_consistent(w)
            &&& listing(w) == listing(v).push(contract)
            &&& w.records == v.records.insert(
                contract,
                new_record(contract, status, risk_level, risk_score, reporter, evidence_hash, now),
            )
            &&& w.admin == v.admin
        }),
{
    let w = spec_register_contract(
        v,
        contract,
        status,
        risk_level,
        risk_score,
        reporter,
        evidence_hash,
        now,
    ).unwrap();
    let n = v.total();
    assert(!v.contract_index.contains_key(contract));
    assert forall|i: u32| i < w.total() implies {
        &&& w.contract_index.contains_key(#[trigger] w.contract_at_index[i])
        &&& w.contract_index[w.contract_at_index[i]] == i
    } by {
        if i < n {
            assert(v.contract_at_index.contains_key(i));
            assert(v.contract_index.contains_key(v.contract_at_index[i]));
        }
    }
    assert forall|a: Address| #[trigger] w.contract_index.contains_key(a) implies {
        &&& w.contract_index[a] < w.total()
        &&& w.contract_at_index[w.contract_index[a]] == a
    } by {
        if a != contract {
            assert(v.contract_index.contains_key(a));
        }
    }
    assert(listing(w) =~= listing(v).push(contract));
}


/// Removing a contract from a consistent registry is refused only for want of
/// an administrator or of a record; otherwise it keeps the registry
/// consistent, moves the last listed contract into the removed one's position
/// and deletes the removed one's record.
pub proof fn remove_keeps_consistency(v: StorageView, contract: Address)
    requires
        is_consistent(v),
    ensures
        spec_remove_contract(v, contract) is Err <==> (v.admin is None || !v.records.contains_key(
            contract,
        )),
        v.admin is None ==> spec_remove_contract(v, contract) == Err::<StorageView, ContractError>(
            ContractError::Unauthorized,
        ),
        v.admin is Some && !v.records.contains_key(contract) ==> spec_remove_contract(v, contract)
            == Err::<StorageView, ContractError>(ContractError::NotFound),
        spec_remove_contract(v, contract) is Ok ==> ({
            let w = spec_remove_contract(v, contract).unwrap();
            let p = v.contract_index[contract] as int;
            &&& is_consistent(w)
            &&& 0 <= p < listing(v).len()
            &&& listing(v)[p] == contract
            &&& listing(w) == listing(v).update(p, listing(v).last()).drop_last()
            &&& w.records == v.records.remove(contract)
            &&& w.admin == v.admin
        }),
{
    if v.admin is Some && v.records.contains_key(contract) {
        assert(v.contract_index.contains_key(contract));
        let n = v.total();
        let p = v.contract_index[contract];
        let last = (n - 1) as u32;
        assert(p < n);
        assert(v.contract_at_index.contains_key(last));
        let w = spec_remove_contract(v, contract).unwrap();
        let d = v.contract_at_index[last];
        assert(v.contract_index.contains_key(d));
        assert(v.contract_index[d] == last);
        assert(w.total() == last);
        assert forall|i: u32| #[trigger] w.contract_at_index.contains_key(i) <==> i < w.total() by {
            if i < last {
                assert(v.contract_at_index.contains_key(i));
            }
        }
        assert forall|i: u32| i < w.total() implies {
            &&& w.contract_index.contains_key(#[trigger] w.contract_at_index[i])
            &&& w.contract_index[w.contract_at_index[i]] == i
        } by {
            assert(v.contract_at_index.contains_key(i));
            let a = v.contract_at_index[i];
            assert(v.contract_index.contains_key(a));
            if i != p {
                assert(a != contract);
                assert(a != d);
            }
        }
        assert forall|a: Address| #[trigger] w.contract_index.contains_key(a) implies {
            &&& w.contract_index[a] < w.total()
            &&& w.contract_at_index[w.contract_index[a]] == a
        } by {
            assert(v.contract_index.contains_key(a));
            if a != d {
                assert(v.contract_index[a] != last);
            }
        }
        assert forall|a: Address| #[trigger]
            w.records.contains_key(a) <==> w.contract_index.contains_key(a) by {
            if a == d && p != last {
                assert(v.records.contains_key(d));
            }
        }
        assert(listing(w) =~= listing(v).update(p as int, listing(v).last()).drop_last());
    }
}


/// Updating a record keeps the registry consistent and the list unchanged;
/// only the record of the updated contract changes.
pub proof fn update_keeps_consistency(
    v: StorageView,
    contract: Address,
    status: ReputationStatus,
    risk_level: RiskLevel,
    risk_score: u32,
    reporter: Address,
    evidence_hash: [u8; 32],
    now: u64,
)
    requires
        is_consistent(v),
        spec_update_reputation(
            v,
            contract,
            status,
            risk_level,
            risk_score,
            reporter,
            evidence_hash,
            now,
        ) is Ok,
    ensures
        ({
            let w = spec_update_reputation(
                v,
                contract,
                status,
                risk_level,
                risk_score,
                reporter,
                evidence_hash,
                now,
            ).unwrap();
            &&& is_consistent(w)
            &&& listing(w) == listing(v)
            &&& w.records == v.records.insert(
                contract,
                updated_record(
                    v.records[contract],
                    status,
                    risk_level,
                    risk_score,
                    reporter,
                    evidence_hash,
                    now,
                ),
            )
            &&& w.admin == v.admin
        }),
{
    let w = spec_update_reputation(
        v,
        contract,
        status,
        risk_level,
        risk_score,
        reporter,
        evidence_hash,
        now,
    ).unwrap();
    assert(listing(w) =~= listing(v));
}

/// Configuring or handing over the administrator keeps the registry
/// consistent and touches nothing but the administrator.
pub proof fn admin_changes_keep_consistency(v: StorageView, admin: Address)
    requires
        is_consistent(v),
    ensures
        spec_initialize(v, admin) matches Ok(w) ==> is_consistent(w) && listing(w) == listing(v)
            && w.records == v.records && w.admin == Some(admin),
        spec_transfer_admin(v, admin) matches Ok(w) ==> is_consistent(w) && listing(w) == listing(
            v,
        ) && w.records == v.records && w.admin == Some(admin),
{
    if let Ok(w) = spec_initialize(v, admin) {
        assert(listing(w) =~= listing(v));
    }
    if let Ok(w) = spec_transfer_admin(v, admin) {
        assert(listing(w) =~= listing(v));
    }
}

/// The registry can be initialized once only: after a successful
/// `initialize`, every further one is refused with `AlreadyExists`.
pub proof fn initialize_succeeds_once(v: StorageView, first: Address, second: Address)
    requires
        spec_initialize(v, first) is Ok,
    ensures
        spec_initialize(spec_initialize(v, first).unwrap(), second) == Err::<
            StorageView,
            ContractError,
        >(ContractError::AlreadyExists),
{
}

/// In a consistent registry the listed contracts are exactly the registered
/// ones, each listed once, and the stored count is their number.
pub proof fn listing_holds_each_registered_contract_once(v: StorageView)
    requires
        is_consistent(v),
    ensures
        listing(v).no_duplicates(),
        listing(v).to_set() == v.records.dom(),
        v.records.dom().len() == v.total(),
{
    let l = listing(v);
    assert forall|i: int, j: int| 0 <= i < l.len() && 0 <= j < l.len() && i != j implies l[i]
        != l[j] by {
        assert(v.contract_index[v.contract_at_index[i as u32]] == i as u32);
        assert(v.contract_index[v.contract_at_index[j as u32]] == j as u32);
    }
    assert forall|a: Address| l.to_set().contains(a) <==> v.records.dom().contains(a) by {
        if v.records.contains_key(a) {
            let i = v.contract_index[a];
            assert(l[i as int] == a);
        }
        if l.to_set().contains(a) {
            let i = choose|i: int| 0 <= i < l.len() && l[i] == a;
            assert(v.contract_index.contains_key(v.contract_at_index[i as u32]));
        }
    }
    assert(l.to_set() =~= v.records.dom());
    l.unique_seq_to_set();
}

/// Registering a contract and then removing it gives back the registry as
/// it was: the same administrator, records, list and index.
pub proof fn remove_undoes_register(
    v: StorageView,
    contract: Address,
    status: ReputationStatus,
    risk_level: RiskLevel,
    risk_score: u32,
    reporter: Address,
    evidence_hash: [u8; 32],
    now: u64,
)
    requires
        is_consistent(v),
        v.total() < u32::MAX,
        spec_register_contract(
            v,
            contract,
            status,
            risk_level,
            risk_score,
            reporter,
            evidence_hash,
            now,
        ) is Ok,
    ensures
        ({
            let w = spec_register_contract(
                v,
                contract,
                status,
                risk_level,
                risk_score,
                reporter,
                evidence_hash,
                now,
            ).unwrap();
            &&& spec_remove_contract(w, contract) is Ok
            &&& spec_remove_contract(w, contract).unwrap().admin == v.admin
            &&& spec_remove_contract(w, contract).unwrap().total() == v.total()
            &&& spec_remove_contract(w, contract).unwrap().records == v.records
            &&& spec_remove_contract(w, contract).unwrap().contract_at_index == v.contract_at_index
            &&& spec_remove_contract(w, contract).unwrap().contract_index == v.contract_index
        }),
{
    let w = spec_register_contract(
        v,
        contract,
        status,
        risk_level,
        risk_score,
        reporter,
        evidence_hash,
        now,
    ).unwrap();
    register_keeps_consistency(
        v,
        contract,
        status,
        risk_level,
        risk_score,
        reporter,
        evidence_hash,
        now,
    );
    let u = spec_remove_contract(w, contract).unwrap();
    assert(!v.contract_index.contains_key(contract));
    assert(!v.contract_at_index.contains_key(v.total()));
    assert(u.records =~= v.records);
    assert(u.contract_at_index =~= v.contract_at_index);
    assert(u.contract_index =~= v.contract_index);
}


/// The records of the contracts listed at positions `lo..hi`, in list order.
pub open spec fn listed_records(v: StorageView, lo: int, hi: int) -> Seq<ContractRecord> {
    listing(v).subrange(lo, hi).map_values(|a: Address| v.records[a])
}

proof fn records_between_is_listed(v: StorageView, lo: u32, hi: u32)
    requires
        is_consistent(v),
        lo <= hi <= v.total(),
    ensures
        records_between(v, lo, hi) == listed_records(v, lo as int, hi as int),
    decreases hi - lo,
{
    if hi > lo {
        let i = (hi - 1) as u32;
        records_between_is_listed(v, lo, i);
        assert(v.contract_at_index.contains_key(i));
        assert(v.contract_index.contains_key(v.contract_at_index[i]));
        assert(listed_records(v, lo as int, hi as int) =~= listed_records(
            v,
            lo as int,
            i as int,
        ).push(v.records[v.contract_at_index[i]]));
    } else {
        assert(listed_records(v, lo as int, hi as int) =~= Seq::<ContractRecord>::empty());
    }
}

/// In a consistent registry a page holds the records of the contracts listed
/// at positions `offset..offset + limit` (cut at the end of the list), in
/// list order; a page that starts at or beyond the end, or holds no items,
/// is empty.
pub proof fn page_is_slice_of_listing(v: StorageView, offset: u32, limit: u32)
    requires
        is_consistent(v),
    ensures
        offset >= v.total() || limit == 0 ==> spec_list_records(v, offset, limit) == Seq::<
            ContractRecord,
        >::empty(),
        offset < v.total() && limit > 0 ==> spec_list_records(v, offset, limit) == listed_records(
            v,
            offset as int,
            if offset + limit <= v.total() {
                offset + limit
            } else {
                v.total() as int
            },
        ),
{
    if offset < v.total() && limit > 0 {
        records_between_is_listed(v, offset, page_end(v, offset, limit));
    }
}


/// What a read gives back after a write: after registering or updating, the
/// contract's record is the one written and it counts as verified exactly
/// when the new status is `Verified` or `Trusted`; after removing, it has no
/// record and does not count as verified. Every other contract's record is
/// left as it was.
pub proof fn reads_after_writes(
    v: StorageView,
    contract: Address,
    other: Address,
    status: ReputationStatus,
    risk_level: RiskLevel,
    risk_score: u32,
    reporter: Address,
    evidence_hash: [u8; 32],
    now: u64,
)
    requires
        other != contract,
    ensures
        spec_register_contract(
            v,
            contract,
            status,
            risk_level,
            risk_score,
            reporter,
            evidence_hash,
            now,
        ) matches Ok(w) ==> {
            &&& w.record_of(contract) == Some(
                new_record(contract, status, risk_level, risk_score, reporter, evidence_hash, now),
            )
            &&& spec_is_verified(w, contract) == spec_is_verified_status(status)
            &&& w.record_of(other) == v.record_of(other)
        },
        spec_update_reputation(
            v,
            contract,
            status,
            risk_level,
            risk_score,
            reporter,
            evidence_hash,
            now,
        ) matches Ok(w) ==> {
            &&& w.record_of(contract) == Some(
                updated_record(
                    v.records[contract],
                    status,
                    risk_level,
                    risk_score,
                    reporter,
                    evidence_hash,
                    now,
                ),
            )
            &&& spec_is_verified(w, contract) == spec_is_verified_status(status)
            &&& w.record_of(other) == v.record_of(other)
        },
        spec_remove_contract(v, contract) matches Ok(w) ==> {
            &&& w.record_of(contract) is None
            &&& !spec_is_verified(w, contract)
            &&& w.record_of(other) == v.record_of(other)
        },
{
}


/// Whatever registration returns, a consistent registry stays consistent;
/// the record that a successful registration writes names the registered
/// contract, has a risk score of at most 100, a reporter other than the
/// contract, version 1, and was last updated when it was first registered.
pub proof fn register_outcome_keeps_consistency(
    v: StorageView,
    contract: Address,
    status: ReputationStatus,
    risk_level: RiskLevel,
    risk_score: u32,
    reporter: Address,
    evidence_hash: [u8; 32],
    now: u64,
)
    requires
        is_consistent(v),
        spec_register_contract(
            v,
            contract,
            status,
            risk_level,
            risk_score,
            reporter,
            evidence_hash,
            now,
        ) is Ok ==> v.total() < u32::MAX,
    ensures
        is_consistent(
            storage_after(
                v,
                spec_register_contract(
                    v,
                    contract,
                    status,
                    risk_level,
                    risk_score,
                    reporter,
                    evidence_hash,
                    now,
                ),
            ),
        ),
        spec_register_contract(
            v,
            contract,
            status,
            risk_level,
            risk_score,
            reporter,
            evidence_hash,
            now,
        ) matches Ok(w) ==> {
            &&& w.records[contract].contract_address == contract
            &&& w.records[contract].risk_score <= 100
            &&& w.records[contract].reporter != contract
            &&& w.records[contract].version == 1
            &&& w.records[contract].timestamp == w.records[contract].last_updated
        },
{
    if spec_register_contract(
        v,
        contract,
        status,
        risk_level,
        risk_score,
        reporter,
        evidence_hash,
        now,
    ) is Ok {
        register_keeps_consistency(
            v,
            contract,
            status,
            risk_level,
            risk_score,
            reporter,
            evidence_hash,
            now,
        );
    }
}

/// Whatever an update returns, it leaves the count, the list, the index, the
/// administrator and the set of registered contracts as they were, every
/// other contract's record as it was, and the updated record's contract and
/// first-registration time as they were; a consistent registry stays
/// consistent.
pub proof fn update_outcome_keeps_registry(
    v: StorageView,
    contract: Address,
    status: ReputationStatus,
    risk_level: RiskLevel,
    risk_score: u32,
    reporter: Address,
    evidence_hash: [u8; 32],
    now: u64,
)
    ensures
        ({
            let u = storage_after(
                v,
                spec_update_reputation(
                    v,
                    contract,
                    status,
                    risk_level,
                    risk_score,
                    reporter,
                    evidence_hash,
                    now,
                ),
            );
            &&& u.total_contracts == v.total_contracts
            &&& u.contract_at_index == v.contract_at_index
            &&& u.contract_index == v.contract_index
            &&& u.admin == v.admin
            &&& u.records.dom() == v.records.dom()
            &&& forall|b: Address|
                b != contract && #[trigger] v.records.contains_key(b) ==> u.records[b]
                    == v.records[b]
            &&& v.records.contains_key(contract) ==> {
                &&& u.records[contract].contract_address == v.records[contract].contract_address
                &&& u.records[contract].timestamp == v.records[contract].timestamp
            }
            &&& is_consistent(v) ==> is_consistent(u)
        }),
{
    let u = storage_after(
        v,
        spec_update_reputation(
            v,
            contract,
            status,
            risk_level,
            risk_score,
            reporter,
            evidence_hash,
            now,
        ),
    );
    if spec_update_reputation(
        v,
        contract,
        status,
        risk_level,
        risk_score,
        reporter,
        evidence_hash,
        now,
    ) is Ok {
        assert(u.records.dom() =~= v.records.dom());
        if is_consistent(v) {
            update_keeps_consistency(
                v,
                contract,
                status,
                risk_level,
                risk_score,
                reporter,
                evidence_hash,
                now,
            );
        }
    }
}

/// The arguments of one call of `update_reputation` for a fixed contract.
pub struct UpdateRequest {
    pub status: ReputationStatus,
    pub risk_level: RiskLevel,
    pub risk_score: u32,
    pub reporter: Address,
    pub evidence_hash: [u8; 32],
    pub now: u64,
}

/// The outcome of one update request on `contract`.
pub open spec fn update_with(v: StorageView, contract: Address, q: UpdateRequest) -> Result<
    StorageView,
    ContractError,
> {
    spec_update_reputation(
        v,
        contract,
        q.status,
        q.risk_level,
        q.risk_score,
        q.reporter,
        q.evidence_hash,
        q.now,
    )
}

/// The storage after the update requests on `contract` are made in order,
/// each refused one leaving storage as it was.
pub open spec fn after_updates(v: StorageView, contract: Address, reqs: Seq<UpdateRequest>) -> StorageView
    decreases reqs.len(),
{
    if reqs.len() == 0 {
        v
    } else {
        let p = after_updates(v, contract, reqs.drop_last());
        storage_after(p, update_with(p, contract, reqs.last()))
    }
}

/// How many of the update requests on `contract`, made in order, succeed.
pub open spec fn successful_updates(v: StorageView, contract: Address, reqs: Seq<UpdateRequest>) -> nat
    decreases reqs.len(),
{
    if reqs.len() == 0 {
        0
    } else {
        let p = after_updates(v, contract, reqs.drop_last());
        successful_updates(v, contract, reqs.drop_last()) + if update_with(
            p,
            contract,
            reqs.last(),
        ) is Ok {
            1nat
        } else {
            0nat
        }
    }
}

proof fn updates_count_versions(v: StorageView, contract: Address, reqs: Seq<UpdateRequest>)
    requires
        v.records.contains_key(contract),
        v.records[contract].version + reqs.len() <= u32::MAX,
    ensures
        ({
            let u = after_updates(v, contract, reqs);
            &&& successful_updates(v, contract, reqs) <= reqs.len()
            &&& u.records.contains_key(contract)
            &&& u.records[contract].version == v.records[contract].version + successful_updates(
                v,
                contract,
                reqs,
            )
            &&& u.records[contract].timestamp == v.records[contract].timestamp
            &&& u.records[contract].contract_address == v.records[contract].contract_address
        }),
    decreases reqs.len(),
{
    if reqs.len() > 0 {
        updates_count_versions(v, contract, reqs.drop_last());
    }
}

/// After a contract is registered at time `now` and then updated by a run of
/// requests, some of which may be refused, its record is at version one plus
/// the number of updates that succeeded, and still carries its contract and
/// its first-registration time `now`.
pub proof fn versions_count_updates(
    v: StorageView,
    contract: Address,
    status: ReputationStatus,
    risk_level: RiskLevel,
    risk_score: u32,
    reporter: Address,
    evidence_hash: [u8; 32],
    now: u64,
    reqs: Seq<UpdateRequest>,
)
    requires
        spec_register_contract(
            v,
            contract,
            status,
            risk_level,
            risk_score,
            reporter,
            evidence_hash,
            now,
        ) is Ok,
        1 + reqs.len() <= u32::MAX,
    ensures
        ({
            let w = spec_register_contract(
                v,
                contract,
                status,
                risk_level,
                risk_score,
                reporter,
                evidence_hash,
                now,
            ).unwrap();
            let u = after_updates(w, contract, reqs);
            &&& u.records.contains_key(contract)
            &&& u.records[contract].version == 1 + successful_updates(w, contract, reqs)
            &&& u.records[contract].timestamp == now
            &&& u.records[contract].contract_address == contract
        }),
{
    let w = spec_register_contract(
        v,
        contract,
        status,
        risk_level,
        risk_score,
        reporter,
        evidence_hash,
        now,
    ).unwrap();
    updates_count_versions(w, contract, reqs);
}


/// Registration succeeds exactly when an administrator is configured, the
/// risk score is at most 100, the reporter is not the contract itself and
/// the contract has no record yet, whatever kind of address either is. The
/// record it stores carries the given contract, status, risk level, score,
/// reporter and evidence, version 1, and `now` as both its registration and
/// its last update time; the contract is appended to the list.
pub proof fn register_contract_stores_its_arguments(
    v: StorageView,
    contract: Address,
    status: ReputationStatus,
    risk_level: RiskLevel,
    risk_score: u32,
    reporter: Address,
    evidence_hash: [u8; 32],
    now: u64,
)
    ensures
        spec_register_contract(
            v,
            contract,
            status,
            risk_level,
            risk_score,
            reporter,
            evidence_hash,
            now,
        ) is Ok <==> (v.admin is Some && risk_score <= 100 && reporter != contract
            && !v.records.contains_key(contract)),
        spec_register_contract(
            v,
            contract,
            status,
            risk_level,
            risk_score,
            reporter,
            evidence_hash,
            now,
        ) matches Ok(w) ==> {
            &&& w.records.contains_key(contract)
            &&& w.records[contract].contract_address == contract
            &&& w.records[contract].reputation_status == status
            &&& w.records[contract].risk_level == risk_level
            &&& w.records[contract].risk_score == risk_score
            &&& w.records[contract].reporter == reporter
            &&& w.records[contract].evidence_hash == evidence_hash
            &&& w.records[contract].version == 1
            &&& w.records[contract].timestamp == now
            &&& w.records[contract].last_updated == now
            &&& w.admin == v.admin
            &&& v.total() < u32::MAX ==> w.total() == v.total() + 1
            &&& w.contract_at_index.contains_key(v.total())
            &&& w.contract_at_index[v.total()] == contract
        },
{
}

/// An update succeeds exactly when an administrator is configured, the risk
/// score is at most 100, the reporter is not the contract itself and the
/// contract has a record, whatever kind of address either is. The record it
/// leaves carries the given status, risk level, score, reporter and evidence
/// and `now` as its last update time, whatever the old record held; its
/// version is one more than before, and its contract and registration time
/// stay.
pub proof fn update_reputation_stores_its_arguments(
    v: StorageView,
    contract: Address,
    status: ReputationStatus,
    risk_level: RiskLevel,
    risk_score: u32,
    reporter: Address,
    evidence_hash: [u8; 32],
    now: u64,
)
    ensures
        spec_update_reputation(
            v,
            contract,
            status,
            risk_level,
            risk_score,
            reporter,
            evidence_hash,
            now,
        ) is Ok <==> (v.admin is Some && risk_score <= 100 && reporter != contract
            && v.records.contains_key(contract)),
        spec_update_reputation(
            v,
            contract,
            status,
            risk_level,
            risk_score,
            reporter,
            evidence_hash,
            now,
        ) matches Ok(w) ==> {
            &&& w.records.contains_key(contract)
            &&& w.records[contract].reputation_status == status
            &&& w.records[contract].risk_level == risk_level
            &&& w.records[contract].risk_score == risk_score
            &&& w.records[contract].reporter == reporter
            &&& w.records[contract].evidence_hash == evidence_hash
            &&& w.records[contract].last_updated == now
            &&& v.records[contract].version < u32::MAX ==> w.records[contract].version
                == v.records[contract].version + 1
            &&& w.records[contract].contract_address == v.records[contract].contract_address
            &&& w.records[contract].timestamp == v.records[contract].timestamp
            &&& w.admin == v.admin
        },
{
}

/// With an administrator configured, handing the role over always succeeds,
/// whatever the registry holds, and makes `new_admin` the administrator
/// while leaving records, list and index as they were; without one it is
/// refused with `Unauthorized`.
pub proof fn transfer_admin_always_hands_over(v: StorageView, new_admin: Address)
    ensures
        v.admin is Some ==> spec_transfer_admin(v, new_admin) is Ok,
        v.admin is None ==> spec_transfer_admin(v, new_admin) == Err::<StorageView, ContractError>(
            ContractError::Unauthorized,
        ),
        spec_transfer_admin(v, new_admin) matches Ok(w) ==> {
            &&& w.admin == Some(new_admin)
            &&& w.records == v.records
            &&& w.contract_at_index == v.contract_at_index
            &&& w.contract_index == v.contract_index
            &&& w.total_contracts == v.total_contracts
        },
{
}

/// On storage with no administrator, `initialize` succeeds for every address,
/// of whatever kind, and makes it the administrator, leaving everything else
/// as it was; once an administrator is configured it is refused with
/// `AlreadyExists`.
pub proof fn initialize_accepts_any_admin(v: StorageView, admin: Address)
    ensures
        v.admin is None ==> spec_initialize(v, admin) is Ok,
        v.admin is Some ==> spec_initialize(v, admin) == Err::<StorageView, ContractError>(
            ContractError::AlreadyExists,
        ),
        spec_initialize(v, admin) matches Ok(w) ==> {
            &&& w.admin == Some(admin)
            &&& w.records == v.records
            &&& w.contract_at_index == v.contract_at_index
            &&& w.contract_index == v.contract_index
            &&& w.total_contracts == v.total_contracts
        },
{
}

} // verus!
