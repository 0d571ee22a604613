use fourier_registry::access_control;
use fourier_registry::storage;
use fourier_registry::{
    Address, AddressKind, ContractError, ContractRecord, RegistryContract, ReputationStatus,
    RiskLevel, Storage,
};

fn contract_address(n: u128) -> Address {
    Address { kind: AddressKind::Contract, high: 7, low: n }
}

fn account_address(n: u128) -> Address {
    Address { kind: AddressKind::Account, high: 9, low: n }
}

fn setup_test_env() -> (Storage, Address) {
    let mut store = Storage::new();
    let admin = account_address(1);
    RegistryContract::initialize(&mut store, admin).unwrap();
    (store, admin)
}

fn register(
    store: &mut Storage,
    contract: Address,
    status: ReputationStatus,
    level: RiskLevel,
    score: u32,
    reporter: Address,
    hash: [u8; 32],
) -> Result<(), ContractError> {
    RegistryContract::register_contract(store, contract, status, level, score, reporter, hash, 0)
}

fn listed(store: &Storage, offset: u32, limit: u32) -> Vec<Address> {
    RegistryContract::list_contracts(store, offset, limit)
        .iter()
        .map(|r: &ContractRecord| r.contract_address)
        .collect()
}

#[test]
fn test_initialize() {
    let (mut store, _admin) = setup_test_env();

    assert_eq!(RegistryContract::version(), String::from("0.1.0"));

    let second_admin = account_address(2);
    let result = RegistryContract::initialize(&mut store, second_admin);
    assert!(result.is_err());
}

#[test]
fn test_register_and_get_reputation() {
    let (mut store, _admin) = setup_test_env();

    let contract_addr = contract_address(10);
    let reporter_addr = account_address(20);
    let evidence_hash = [1u8; 32];

    register(
        &mut store,
        contract_addr,
        ReputationStatus::Verified,
        RiskLevel::Low,
        5,
        reporter_addr,
        evidence_hash,
    )
    .unwrap();

    let record = RegistryContract::get_reputation(&store, contract_addr).unwrap();
    assert_eq!(record.contract_address, contract_addr);
    assert_eq!(record.reputation_status, ReputationStatus::Verified);
    assert_eq!(record.risk_level, RiskLevel::Low);
    assert_eq!(record.risk_score, 5);
    assert_eq!(record.reporter, reporter_addr);
    assert_eq!(record.evidence_hash, evidence_hash);
    assert_eq!(record.version, 1);

    assert!(RegistryContract::is_verified(&store, contract_addr));
}

#[test]
fn test_update_reputation() {
    let (mut store, _admin) = setup_test_env();

    let contract_addr = contract_address(10);
    let reporter_addr = account_address(20);
    let evidence_hash = [1u8; 32];

    register(
        &mut store,
        contract_addr,
        ReputationStatus::Verified,
        RiskLevel::Low,
        0,
        reporter_addr,
        evidence_hash,
    )
    .unwrap();

    let updated_hash = [2u8; 32];
    RegistryContract::update_reputation(
        &mut store,
        contract_addr,
        ReputationStatus::Warning,
        RiskLevel::Medium,
        45,
        reporter_addr,
        updated_hash,
        0,
    )
    .unwrap();

    let record = RegistryContract::get_reputation(&store, contract_addr).unwrap();
    assert_eq!(record.reputation_status, ReputationStatus::Warning);
    assert_eq!(record.risk_level, RiskLevel::Medium);
    assert_eq!(record.risk_score, 45);
    assert_eq!(record.evidence_hash, updated_hash);
    assert_eq!(record.version, 2);

    assert!(!RegistryContract::is_verified(&store, contract_addr));
}

#[test]
fn test_remove_contract() {
    let (mut store, _admin) = setup_test_env();

    let contract_addr = contract_address(10);
    let reporter_addr = account_address(20);
    let evidence_hash = [1u8; 32];

    register(
        &mut store,
        contract_addr,
        ReputationStatus::Scam,
        RiskLevel::Critical,
        99,
        reporter_addr,
        evidence_hash,
    )
    .unwrap();

    assert!(RegistryContract::get_reputation(&store, contract_addr).is_some());

    RegistryContract::remove_contract(&mut store, contract_addr).unwrap();

    assert!(RegistryContract::get_reputation(&store, contract_addr).is_none());
}

#[test]
fn test_list_contracts() {
    let (mut store, _admin) = setup_test_env();
    let evidence_hash = [1u8; 32];

    let c1 = contract_address(11);
    let c2 = contract_address(12);
    let c3 = contract_address(13);
    let reporter = account_address(20);

    register(&mut store, c1, ReputationStatus::Verified, RiskLevel::Low, 5, reporter, evidence_hash)
        .unwrap();
    register(&mut store, c2, ReputationStatus::Warning, RiskLevel::Medium, 50, reporter, evidence_hash)
        .unwrap();
    register(&mut store, c3, ReputationStatus::Scam, RiskLevel::Critical, 95, reporter, evidence_hash)
        .unwrap();

    let list = RegistryContract::list_contracts(&store, 0, 10);
    assert_eq!(list.len(), 3);
    assert_eq!(list[0].contract_address, c1);
    assert_eq!(list[1].contract_address, c2);
    assert_eq!(list[2].contract_address, c3);

    let paginated = RegistryContract::list_contracts(&store, 1, 1);
    assert_eq!(paginated.len(), 1);
    assert_eq!(paginated[0].contract_address, c2);

    RegistryContract::remove_contract(&mut store, c2).unwrap();

    let list_after_removal = RegistryContract::list_contracts(&store, 0, 10);
    assert_eq!(list_after_removal.len(), 2);
    assert_eq!(list_after_removal[0].contract_address, c1);
    assert_eq!(list_after_removal[1].contract_address, c3);
}

#[test]
fn test_validation_rules() {
    let (mut store, _admin) = setup_test_env();

    let contract_addr = contract_address(10);
    let reporter_addr = account_address(20);
    let evidence_hash = [1u8; 32];

    let result = register(
        &mut store,
        contract_addr,
        ReputationStatus::Verified,
        RiskLevel::Low,
        101,
        reporter_addr,
        evidence_hash,
    );
    assert!(result.is_err());

    let result_addr = register(
        &mut store,
        contract_addr,
        ReputationStatus::Verified,
        RiskLevel::Low,
        0,
        contract_addr,
        evidence_hash,
    );
    assert!(result_addr.is_err());
}

#[test]
fn test_transfer_admin() {
    let (mut store, _admin) = setup_test_env();

    let new_admin = account_address(2);
    RegistryContract::transfer_admin(&mut store, new_admin).unwrap();

    let contract_addr = contract_address(10);
    let reporter_addr = account_address(20);
    let evidence_hash = [1u8; 32];

    register(
        &mut store,
        contract_addr,
        ReputationStatus::Verified,
        RiskLevel::Low,
        0,
        reporter_addr,
        evidence_hash,
    )
    .unwrap();

    assert!(RegistryContract::get_reputation(&store, contract_addr).is_some());
}

// --- Further cases ---

#[test]
fn initialize_configures_admin_once() {
    let mut store = Storage::new();
    assert_eq!(storage::get_admin(&store), None);
    assert!(!storage::has_admin(&store));
    assert_eq!(access_control::require_admin(&store), Err(ContractError::Unauthorized));
    let admin = account_address(1);
    assert_eq!(RegistryContract::initialize(&mut store, admin), Ok(()));
    assert_eq!(storage::get_admin(&store), Some(admin));
    assert_eq!(access_control::require_admin(&store), Ok(admin));
    assert_eq!(
        RegistryContract::initialize(&mut store, account_address(2)),
        Err(ContractError::AlreadyExists)
    );
    assert_eq!(storage::get_admin(&store), Some(admin));
}

#[test]
fn operations_without_admin_are_unauthorized() {
    let mut store = Storage::new();
    let c = contract_address(10);
    let r = account_address(20);
    assert_eq!(
        register(&mut store, c, ReputationStatus::Verified, RiskLevel::Low, 5, r, [0; 32]),
        Err(ContractError::Unauthorized)
    );
    assert_eq!(
        RegistryContract::update_reputation(
            &mut store,
            c,
            ReputationStatus::Verified,
            RiskLevel::Low,
            5,
            r,
            [0; 32],
            3
        ),
        Err(ContractError::Unauthorized)
    );
    assert_eq!(RegistryContract::remove_contract(&mut store, c), Err(ContractError::Unauthorized));
    assert_eq!(RegistryContract::transfer_admin(&mut store, r), Err(ContractError::Unauthorized));
    assert_eq!(storage::get_admin(&store), None);
    assert_eq!(storage::get_total_contracts(&store), 0);
    assert!(RegistryContract::get_reputation(&store, c).is_none());
}

#[test]
fn unauthorized_is_checked_before_inputs() {
    let mut store = Storage::new();
    let c = contract_address(10);
    assert_eq!(
        register(&mut store, c, ReputationStatus::Verified, RiskLevel::Low, 500, c, [0; 32]),
        Err(ContractError::Unauthorized)
    );
}

#[test]
fn register_errors_come_in_order() {
    let (mut store, _admin) = setup_test_env();
    let c = contract_address(10);
    let r = account_address(20);
    // a bad score is reported before a self-report
    assert_eq!(
        register(&mut store, c, ReputationStatus::Verified, RiskLevel::Low, 101, c, [0; 32]),
        Err(ContractError::InvalidRiskScore)
    );
    assert_eq!(
        register(&mut store, c, ReputationStatus::Verified, RiskLevel::Low, 100, c, [0; 32]),
        Err(ContractError::InvalidAddress)
    );
    assert_eq!(
        register(&mut store, c, ReputationStatus::Verified, RiskLevel::Low, 100, r, [0; 32]),
        Ok(())
    );
    assert_eq!(
        register(&mut store, c, ReputationStatus::Scam, RiskLevel::High, 1, r, [3; 32]),
        Err(ContractError::AlreadyExists)
    );
    // the refused registration left the record as it was
    let rec = RegistryContract::get_reputation(&store, c).unwrap();
    assert_eq!(rec.reputation_status, ReputationStatus::Verified);
    assert_eq!(rec.risk_score, 100);
    assert_eq!(storage::get_total_contracts(&store), 1);
}

#[test]
fn update_errors() {
    let (mut store, _admin) = setup_test_env();
    let c = contract_address(10);
    let r = account_address(20);
    let up = |store: &mut Storage, score: u32, reporter: Address| {
        RegistryContract::update_reputation(
            store,
            c,
            ReputationStatus::Trusted,
            RiskLevel::Low,
            score,
            reporter,
            [5; 32],
            9,
        )
    };
    assert_eq!(up(&mut store, 10, r), Err(ContractError::NotFound));
    assert_eq!(up(&mut store, 101, r), Err(ContractError::InvalidRiskScore));
    assert_eq!(up(&mut store, 10, c), Err(ContractError::InvalidAddress));
}

#[test]
fn register_sets_times_and_update_keeps_first_time() {
    let (mut store, _admin) = setup_test_env();
    let c = contract_address(10);
    let r = account_address(20);
    let r2 = account_address(21);
    RegistryContract::register_contract(
        &mut store,
        c,
        ReputationStatus::Unknown,
        RiskLevel::High,
        70,
        r,
        [4; 32],
        1000,
    )
    .unwrap();
    let rec = RegistryContract::get_reputation(&store, c).unwrap();
    assert_eq!(rec.timestamp, 1000);
    assert_eq!(rec.last_updated, 1000);
    assert_eq!(rec.version, 1);
    assert!(!RegistryContract::is_verified(&store, c));

    RegistryContract::update_reputation(
        &mut store,
        c,
        ReputationStatus::Trusted,
        RiskLevel::Low,
        3,
        r2,
        [6; 32],
        2500,
    )
    .unwrap();
    let rec = RegistryContract::get_reputation(&store, c).unwrap();
    assert_eq!(rec.contract_address, c);
    assert_eq!(rec.timestamp, 1000);
    assert_eq!(rec.last_updated, 2500);
    assert_eq!(rec.version, 2);
    assert_eq!(rec.reporter, r2);
    assert_eq!(rec.evidence_hash, [6; 32]);
    assert!(RegistryContract::is_verified(&store, c));

    RegistryContract::update_reputation(
        &mut store,
        c,
        ReputationStatus::Suspended,
        RiskLevel::Critical,
        100,
        r2,
        [6; 32],
        2600,
    )
    .unwrap();
    let rec = RegistryContract::get_reputation(&store, c).unwrap();
    assert_eq!(rec.version, 3);
    assert!(!RegistryContract::is_verified(&store, c));
}

#[test]
fn every_status_is_valid_and_only_two_are_verified() {
    let (mut store, _admin) = setup_test_env();
    let r = account_address(20);
    let statuses = [
        (ReputationStatus::Verified, true),
        (ReputationStatus::Trusted, true),
        (ReputationStatus::Warning, false),
        (ReputationStatus::Scam, false),
        (ReputationStatus::Suspended, false),
        (ReputationStatus::Unknown, false),
    ];
    for (i, (status, verified)) in statuses.iter().enumerate() {
        let c = contract_address(100 + i as u128);
        assert_eq!(register(&mut store, c, *status, RiskLevel::Medium, 50, r, [0; 32]), Ok(()));
        assert_eq!(RegistryContract::is_verified(&store, c), *verified);
    }
    assert!(!RegistryContract::is_verified(&store, contract_address(999)));
}

#[test]
fn remove_errors() {
    let (mut store, _admin) = setup_test_env();
    let c = contract_address(10);
    assert_eq!(RegistryContract::remove_contract(&mut store, c), Err(ContractError::NotFound));
}

#[test]
fn remove_undoes_register() {
    let (mut store, _admin) = setup_test_env();
    let r = account_address(20);
    let a = contract_address(1);
    let b = contract_address(2);
    register(&mut store, a, ReputationStatus::Verified, RiskLevel::Low, 1, r, [0; 32]).unwrap();
    register(&mut store, b, ReputationStatus::Warning, RiskLevel::High, 80, r, [0; 32]).unwrap();
    let before = listed(&store, 0, 10);

    let c = contract_address(3);
    register(&mut store, c, ReputationStatus::Scam, RiskLevel::Critical, 99, r, [9; 32]).unwrap();
    assert_eq!(storage::get_total_contracts(&store), 3);
    RegistryContract::remove_contract(&mut store, c).unwrap();

    assert_eq!(listed(&store, 0, 10), before);
    assert_eq!(storage::get_total_contracts(&store), 2);
    assert!(RegistryContract::get_reputation(&store, c).is_none());
    assert_eq!(RegistryContract::get_reputation(&store, a).unwrap().risk_score, 1);
    assert_eq!(RegistryContract::get_reputation(&store, b).unwrap().risk_score, 80);
}

#[test]
fn swap_and_pop_moves_last_into_place() {
    let (mut store, _admin) = setup_test_env();
    let r = account_address(20);
    let cs: Vec<Address> = (1..=5).map(contract_address).collect();
    for c in &cs {
        register(&mut store, *c, ReputationStatus::Verified, RiskLevel::Low, 0, r, [0; 32]).unwrap();
    }
    RegistryContract::remove_contract(&mut store, cs[0]).unwrap();
    assert_eq!(listed(&store, 0, 10), vec![cs[4], cs[1], cs[2], cs[3]]);
    RegistryContract::remove_contract(&mut store, cs[3]).unwrap();
    assert_eq!(listed(&store, 0, 10), vec![cs[4], cs[1], cs[2]]);
    RegistryContract::remove_contract(&mut store, cs[1]).unwrap();
    assert_eq!(listed(&store, 0, 10), vec![cs[4], cs[2]]);
    assert_eq!(RegistryContract::remove_contract(&mut store, cs[1]), Err(ContractError::NotFound));
    // a removed contract can be registered again, at the end of the list
    register(&mut store, cs[1], ReputationStatus::Scam, RiskLevel::High, 60, r, [0; 32]).unwrap();
    assert_eq!(listed(&store, 0, 10), vec![cs[4], cs[2], cs[1]]);
    assert_eq!(RegistryContract::get_reputation(&store, cs[1]).unwrap().version, 1);
}

#[test]
fn pagination_edges() {
    let (mut store, _admin) = setup_test_env();
    let r = account_address(20);
    let cs: Vec<Address> = (1..=4).map(contract_address).collect();
    assert!(RegistryContract::list_contracts(&store, 0, 10).is_empty());
    for c in &cs {
        register(&mut store, *c, ReputationStatus::Trusted, RiskLevel::Low, 0, r, [0; 32]).unwrap();
    }
    assert_eq!(listed(&store, 0, 4), cs);
    assert_eq!(listed(&store, 1, 2), vec![cs[1], cs[2]]);
    assert_eq!(listed(&store, 2, 100), vec![cs[2], cs[3]]);
    assert_eq!(listed(&store, 3, 1), vec![cs[3]]);
    assert!(listed(&store, 4, 1).is_empty());
    assert!(listed(&store, 1, 0).is_empty());
    assert!(listed(&store, 7, u32::MAX).is_empty());
    assert_eq!(listed(&store, 0, u32::MAX), cs);
    // a limit whose end lies beyond u32::MAX is only an upper bound
    assert_eq!(listed(&store, 1, u32::MAX), vec![cs[1], cs[2], cs[3]]);
    assert_eq!(listed(&store, 3, u32::MAX - 1), vec![cs[3]]);
}

#[test]
fn storage_list_index_errors() {
    let mut store = Storage::new();
    let a = contract_address(1);
    let b = contract_address(2);
    // nothing listed: the count is 0
    assert_eq!(storage::remove_contract_from_list(&mut store, &a), Err(ContractError::StorageFailure));
    storage::add_contract_to_list(&mut store, &a);
    assert_eq!(storage::get_total_contracts(&store), 1);
    // listed contracts exist, but not this one
    assert_eq!(storage::remove_contract_from_list(&mut store, &b), Err(ContractError::NotFound));
    assert_eq!(storage::remove_contract_from_list(&mut store, &a), Ok(()));
    assert_eq!(storage::get_total_contracts(&store), 0);
}

#[test]
fn storage_records_without_list() {
    let mut store = Storage::new();
    let a = contract_address(1);
    let rec = ContractRecord {
        contract_address: a,
        reputation_status: ReputationStatus::Warning,
        risk_level: RiskLevel::High,
        risk_score: 77,
        reporter: account_address(5),
        timestamp: 11,
        evidence_hash: [8; 32],
        version: 4,
        last_updated: 12,
    };
    assert_eq!(storage::get_record(&store, &a), None);
    storage::set_record(&mut store, &a, &rec);
    assert_eq!(storage::get_record(&store, &a), Some(rec));
    // a record that is not listed does not appear in pages
    assert!(storage::list_records(&store, 0, 10).is_empty());
    storage::remove_record(&mut store, &a);
    assert_eq!(storage::get_record(&store, &a), None);
    storage::set_admin(&mut store, &a);
    assert!(storage::has_admin(&store));
}

#[test]
fn versions_count_successful_updates() {
    let (mut store, _admin) = setup_test_env();
    let c = contract_address(10);
    let r = account_address(20);
    RegistryContract::register_contract(&mut store, c, ReputationStatus::Warning, RiskLevel::High, 60, r, [1; 32], 50)
        .unwrap();
    for (i, score) in [10u32, 200, 20, 300, 30].iter().enumerate() {
        let _ = RegistryContract::update_reputation(
            &mut store,
            c,
            ReputationStatus::Trusted,
            RiskLevel::Low,
            *score,
            r,
            [2; 32],
            60 + i as u64,
        );
    }
    let rec = RegistryContract::get_reputation(&store, c).unwrap();
    // three updates succeeded, two were refused for their risk score
    assert_eq!(rec.version, 4);
    assert_eq!(rec.timestamp, 50);
    assert_eq!(rec.last_updated, 64);
    assert_eq!(rec.risk_score, 30);
}
