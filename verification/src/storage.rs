use vstd::prelude::*;

use crate::errors::ContractError;
use crate::table::{distinct_keys, entries_map, Table};
use crate::types::{Address, ContractRecord};

verus! {

/// What the registry's ledger storage holds, key by key: the administrator
/// and the contract count (instance entries), and the records and the two
/// halves of the list index (persistent entries). A key that was never
/// written, or was removed, is absent.
pub struct StorageView {
    pub admin: Option<Address>,
    pub total_contracts: Option<u32>,
    /// Record of each rated contract.
    pub records: Map<Address, ContractRecord>,
    /// Contract listed at each position.
    pub contract_at_index: Map<u32, Address>,
    /// Position at which each contract is listed.
    pub contract_index: Map<Address, u32>,
}

impl StorageView {
    /// Storage in which nothing was ever written.
    pub open spec fn empty() -> StorageView {
        StorageView {
            admin: None,
            total_contracts: None,
            records: Map::empty(),
            contract_at_index: Map::empty(),
            contract_index: Map::empty(),
        }
    }

    /// The stored count of contracts, 0 where none was stored.
    pub open spec fn total(self) -> u32 {
        match self.total_contracts {
            Some(n) => n,
            None => 0,
        }
    }

    /// The stored record of `contract`, if any.
    pub open spec fn record_of(self, contract: Address) -> Option<ContractRecord> {
        if self.records.contains_key(contract) {
            Some(self.records[contract])
        } else {
            None
        }
    }
}

/// The registry's storage on the ledger.
pub struct Storage {
    admin: Option<Address>,
    total_contracts: Option<u32>,
    records: Table<Address, ContractRecord>,
    contract_at_index: Table<u32, Address>,
    contract_index: Table<Address, u32>,
}

impl View for Storage {
    type V = StorageView;

    closed spec fn view(&self) -> StorageView {
        StorageView {
            admin: self.admin,
            total_contracts: self.total_contracts,
            records: self.records@,
            contract_at_index: self.contract_at_index@,
            contract_index: self.contract_index@,
        }
    }
}

/// The contents of the registry's storage as plain lists of entries, the
/// form in which it is read from and written back to the ledger.
pub struct StorageEntries {
    pub admin: Option<Address>,
    pub total_contracts: Option<u32>,
    pub records: Vec<(Address, ContractRecord)>,
    pub contract_at_index: Vec<(u32, Address)>,
    pub contract_index: Vec<(Address, u32)>,
}

/// The storage that lists of entries stand for.
pub open spec fn entries_view(e: StorageEntries) -> StorageView {
    StorageView {
        admin: e.admin,
        total_contracts: e.total_contracts,
        records: entries_map(e.records@),
        contract_at_index: entries_map(e.contract_at_index@),
        contract_index: entries_map(e.contract_index@),
    }
}

impl Storage {
    /// Storage holding the given entries; a later entry for a key overrides an earlier one.
    pub fn from_entries(entries: &StorageEntries) -> (s: Self)
        ensures
            s.inv(),
            s@ == entries_view(*entries),
    {
        Storage {
            admin: entries.admin,
            total_contracts: entries.total_contracts,
            records: Table::from_entries(&entries.records),
            contract_at_index: Table::from_entries(&entries.contract_at_index),
            contract_index: Table::from_entries(&entries.contract_index),
        }
    }

    /// The entries of the storage, each key once.
    pub fn to_entries(&self) -> (e: StorageEntries)
        requires
            self.inv(),
        ensures
            entries_view(e) == self@,
            distinct_keys(e.records@),
            distinct_keys(e.contract_at_index@),
            distinct_keys(e.contract_index@),
    {
        StorageEntries {
            admin: self.admin,
            total_contracts: self.total_contracts,
            records: self.records.to_entries(),
            contract_at_index: self.contract_at_index.to_entries(),
            contract_index: self.contract_index.to_entries(),
        }
    }

    /// The representation is sound: each table's entries stand for its map.
    pub closed spec fn inv(&self) -> bool {
        &&& self.records.wf()
        &&& self.contract_at_index.wf()
        &&& self.contract_index.wf()
    }

    /// Storage of a freshly deployed registry: nothing written yet.
    pub fn new() -> (s: Self)
        ensures
            s.inv(),
            s@ == StorageView::empty(),
    {
        Storage {
            admin: None,
            total_contracts: None,
            records: Table::new(),
            contract_at_index: Table::new(),
            contract_index: Table::new(),
        }
    }
}

// --- Admin storage ---

/// The administrator, if one is configured.
pub fn get_admin(store: &Storage) -> (r: Option<Address>)
    ensures
        r == store@.admin,
{
    store.admin
}

/// Configures `admin` as the administrator.
pub fn set_admin(store: &mut Storage, admin: &Address)
    requires
        old(store).inv(),
    ensures
        final(store).inv(),
        final(store)@ == (StorageView { admin: Some(*admin), ..old(store)@ }),
{
    store.admin = Some(*admin);
}

/// Whether an administrator is configured.
pub fn has_admin(store: &Storage) -> (r: bool)
    ensures
        r == store@.admin is Some,
{
    store.admin.is_some()
}

// --- Total count storage ---

/// The number of listed contracts, 0 where no count was stored yet.
pub fn get_total_contracts(store: &Storage) -> (r: u32)
    ensures
        r == store@.total(),
{
    match store.total_contracts {
        Some(n) => n,
        None => 0,
    }
}

/// Stores the number of listed contracts.
fn set_total_contracts(store: &mut Storage, total: u32)
    requires
        old(store).inv(),
    ensures
        final(store).inv(),
        final(store)@ == (StorageView { total_contracts: Some(total), ..old(store)@ }),
{
    store.total_contracts = Some(total);
}

// --- Reputation record storage ---

/// The record kept for `contract`, if any.
pub fn get_record(store: &Storage, contract: &Address) -> (r: Option<ContractRecord>)
    requires
        store.inv(),
    ensures
        r == store@.record_of(*contract),
{
    store.records.get(contract)
}

/// Stores `record` as the record of `contract`, replacing any earlier one.
pub fn set_record(store: &mut Storage, contract: &Address, record: &ContractRecord)
    requires
        old(store).inv(),
    ensures
        final(store).inv(),
        final(store)@ == (StorageView {
            records: old(store)@.records.insert(*contract, *record),
            ..old(store)@
        }),
{
    store.records.insert(*contract, *record);
}

/// Deletes the record of `contract`.
pub fn remove_record(store: &mut Storage, contract: &Address)
    requires
        old(store).inv(),
    ensures
        final(store).inv(),
        final(store)@ == (StorageView { records: old(store)@.records.remove(*contract), ..old(store)@ }),
{
    store.records.remove(contract);
}

// --- List index storage ---

/// Storage after `contract` is appended to the list at position `total()`.
pub open spec fn spec_add_contract_to_list(v: StorageView, contract: Address) -> StorageView {
    let n = v.total();
    StorageView {
        contract_at_index: v.contract_at_index.insert(n, contract),
        contract_index: v.contract_index.insert(contract, n),
        total_contracts: Some((n + 1) as u32),
        ..v
    }
}

/// Appends `contract` to the list of contracts.
pub fn add_contract_to_list(store: &mut Storage, contract: &Address)
    requires
        old(store).inv(),
        old(store)@.total() < u32::MAX,
    ensures
        final(store).inv(),
        final(store)@ == spec_add_contract_to_list(old(store)@, *contract),
{
    let mut total = get_total_contracts(store);
    store.contract_at_index.insert(total, *contract);
    store.contract_index.insert(*contract, total);
    total = total + 1;
    set_total_contracts(store, total);
}

/// Storage after `contract` is taken off the list: the last listed contract
/// moves into its position and the list shrinks by one. Refused with
/// `StorageFailure` when the count is 0 or the last position is empty while
/// another must move, and with `NotFound` when `contract` has no position.
pub open spec fn spec_remove_contract_from_list(v: StorageView, contract: Address) -> Result<
    StorageView,
    ContractError,
> {
    let total = v.total();
    if total == 0 {
        Err(ContractError::StorageFailure)
    } else if !v.contract_index.contains_key(contract) {
        Err(ContractError::NotFound)
    } else {
        let idx = v.contract_index[contract];
        let last = (total - 1) as u32;
        if idx != last && !v.contract_at_index.contains_key(last) {
            Err(ContractError::StorageFailure)
        } else {
            let moved = if idx != last {
                let last_contract = v.contract_at_index[last];
                StorageView {
                    contract_at_index: v.contract_at_index.insert(idx, last_contract),
                    contract_index: v.contract_index.insert(last_contract, idx),
                    ..v
                }
            } else {
                v
            };
            Ok(
                StorageView {
                    contract_at_index: moved.contract_at_index.remove(last),
                    contract_index: moved.contract_index.remove(contract),
                    total_contracts: Some(last),
                    ..moved
                },
            )
        }
    }
}

/// Takes `contract` off the list by moving the last listed contract into its place.
pub fn remove_contract_from_list(store: &mut Storage, contract: &Address) -> (r: Result<
    (),
    ContractError,
>)
    requires
        old(store).inv(),
    ensures
        final(store).inv(),
        match spec_remove_contract_from_list(old(store)@, *contract) {
            Ok(v) => r is Ok && final(store)@ == v,
            Err(e) => r == Err::<(), ContractError>(e) && final(store)@ == old(store)@,
        },
{
    let total = get_total_contracts(store);
    if total == 0 {
        return Err(ContractError::StorageFailure);
    }
    let idx = match store.contract_index.get(contract) {
        Some(i) => i,
        None => {
            return Err(ContractError::NotFound);
        },
    };
    let last_idx = total - 1;
    if idx != last_idx {
        let last_contract = match store.contract_at_index.get(&last_idx) {
            Some(a) => a,
            None => {
                return Err(ContractError::StorageFailure);
            },
        };
        store.contract_at_index.insert(idx, last_contract);
        store.contract_index.insert(last_contract, idx);
    }
    store.contract_at_index.remove(&last_idx);
    store.contract_index.remove(contract);
    set_total_contracts(store, last_idx);
    Ok(())
}

/// The records at positions `lo..hi` of the list, in order, skipping each
/// position that is empty or names a contract without a record.
pub open spec fn records_between(v: StorageView, lo: u32, hi: u32) -> Seq<ContractRecord>
    decreases hi - lo,
{
    if hi <= lo {
        Seq::empty()
    } else {
        let prev = records_between(v, lo, (hi - 1) as u32);
        let i = (hi - 1) as u32;
        if v.contract_at_index.contains_key(i) && v.records.contains_key(v.contract_at_index[i]) {
            prev.push(v.records[v.contract_at_index[i]])
        } else {
            prev
        }
    }
}

/// The end of the page that starts at `offset`: `offset + limit`, but not beyond the list.
pub open spec fn page_end(v: StorageView, offset: u32, limit: u32) -> u32 {
    if offset + limit <= v.total() {
        (offset + limit) as u32
    } else {
        v.total()
    }
}

/// The page of records that starts at position `offset` and holds at most `limit` items.
pub open spec fn spec_list_records(v: StorageView, offset: u32, limit: u32) -> Seq<ContractRecord> {
    if offset >= v.total() || limit == 0 {
        Seq::empty()
    } else {
        records_between(v, offset, page_end(v, offset, limit))
    }
}

/// The records listed at positions `offset..offset + limit`, in list order.
pub fn list_records(store: &Storage, offset: u32, limit: u32) -> (r: Vec<ContractRecord>)
    requires
        store.inv(),
    ensures
        r@ == spec_list_records(store@, offset, limit),
{
    let total = get_total_contracts(store);
    let mut records: Vec<ContractRecord> = Vec::new();
    if offset >= total || limit == 0 {
        return records;
    }
    // `limit` is an upper bound on the page size: the page ends at the end
    // of the list when fewer than `limit` contracts follow `offset`.
    let end = if limit >= total - offset {
        total
    } else {
        offset + limit
    };
    let mut idx = offset;
    while idx < end
        invariant
            store.inv(),
            offset <= idx <= end,
            end == page_end(store@, offset, limit),
            records@ == records_between(store@, offset, idx),
        decreases end - idx,
    {
        match store.contract_at_index.get(&idx) {
            Some(contract) => {
                match get_record(store, &contract) {
                    Some(record) => {
                        records.push(record);
                    },
                    None => {},
                }
            },
            None => {},
        }
        idx = idx + 1;
    }
    records
}

/// The contracts in list order: the one stored at each position below the count.
pub open spec fn listing(v: StorageView) -> Seq<Address> {
    Seq::new(v.total() as nat, |i: int| v.contract_at_index[i as u32])
}

/// The registry's storage agrees with itself: the positions in use are
/// exactly those below the count, the two halves of the index are inverse to
/// each other, the listed contracts are exactly those with a record, and each
/// record names the contract it is kept for.
pub open spec fn is_consistent(v: StorageView) -> bool {
    &&& forall|i: u32| #[trigger] v.contract_at_index.contains_key(i) <==> i < v.total()
    &&& forall|a: Address| #[trigger]
        v.contract_index.contains_key(a) ==> {
            &&& v.contract_index[a] < v.total()
            &&& v.contract_at_index[v.contract_index[a]] == a
        }
    &&& forall|i: u32|
        i < v.total() ==> {
            &&& v.contract_index.contains_key(#[trigger] v.contract_at_index[i])
            &&& v.contract_index[v.contract_at_index[i]] == i
        }
    &&& forall|a: Address| #[trigger]
        v.records.contains_key(a) <==> v.contract_index.contains_key(a)
    &&& forall|a: Address| #[trigger]
        v.records.contains_key(a) ==> v.records[a].contract_address == a
}

} // verus!
