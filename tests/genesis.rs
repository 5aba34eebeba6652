use sov_aptosvm::error::GenesisError;
use sov_aptosvm::handles::DatabaseHandles;
use sov_aptosvm::ledger::{BootstrapStep, LedgerGenesis};
use sov_aptosvm::orchestrator::{Action, GenesisRun, Phase};
use sov_aptosvm::paths::{ledger_db_path, resolve_path, MOVE_DB_DIR};
use sov_aptosvm::record::GenesisRecord;
use sov_aptosvm::waypoint::Waypoint;

fn counting_hash() -> [u8; 32] {
    let mut h = [0u8; 32];
    for (i, b) in h.iter_mut().enumerate() {
        *b = i as u8;
    }
    h
}

fn drive_to_persist(base: &str, signer: Vec<u8>, w: Waypoint, ledger: &mut LedgerGenesis, block: Vec<u8>) -> GenesisRecord {
    let mut run = GenesisRun::new(base);
    assert!(matches!(run.begin(), Action::CreateGenesis { validator_count: 1 }));
    match run.genesis_created(Some(signer)) {
        Action::EnsureDirectory { path } => assert_eq!(path, run.db_path().clone()),
        _ => panic!("expected EnsureDirectory"),
    }
    assert!(matches!(run.directory_ensured(true), Action::OpenDatabase { .. }));
    assert!(matches!(run.database_opened(true), Action::ComputeWaypoint));
    match run.waypoint_computed(w, ledger) {
        Action::ApplyGenesis { waypoint } => {
            assert!(ledger.bootstrap(&waypoint).is_ok());
            assert!(matches!(run.genesis_applied(ledger.committed().unwrap()), Action::ReleaseDatabase));
        }
        Action::ReleaseDatabase => {}
        _ => panic!("unexpected action after the waypoint"),
    }
    assert!(matches!(run.database_released(), Action::ReadGenesisBlock { .. }));
    match run.genesis_block_read(Some(block)) {
        Action::Persist { record } => {
            assert_eq!(run.phase(), Phase::Done);
            record
        }
        _ => panic!("expected Persist"),
    }
}

#[test]
fn resolve_path_joins_with_slash() {
    assert_eq!(resolve_path("/tmp/chain", "ledger"), "/tmp/chain/ledger");
    assert_eq!(ledger_db_path("/home/u"), "/home/u/.move-chain-data");
    assert_eq!(MOVE_DB_DIR, ".move-chain-data");
}

#[test]
fn waypoint_text_is_version_colon_hex() {
    let w = Waypoint::new(1234, counting_hash());
    assert_eq!(
        w.to_text(),
        "1234:000102030405060708090a0b0c0d0e0f101112131415161718191a1b1c1d1e1f"
    );
    let z = Waypoint::new(0, [0xabu8; 32]);
    assert_eq!(z.to_text(), format!("0:{}", "ab".repeat(32)));
    let m = Waypoint::new(u64::MAX, [0xffu8; 32]);
    assert_eq!(m.to_text(), format!("18446744073709551615:{}", "ff".repeat(32)));
}

#[test]
fn same_as_compares_version_and_hash() {
    let a = Waypoint::new(0, counting_hash());
    let mut h = counting_hash();
    h[31] = 0;
    assert!(a.same_as(&Waypoint::new(0, counting_hash())));
    assert!(!a.same_as(&Waypoint::new(0, h)));
    assert!(!a.same_as(&Waypoint::new(1, counting_hash())));
}

#[test]
fn bootstrap_round_trip_keeps_waypoint() {
    let w = Waypoint::new(0, counting_hash());
    let mut ledger = LedgerGenesis::empty();
    assert_eq!(ledger.plan_bootstrap(&w).ok(), Some(BootstrapStep::ApplyGenesis));
    assert_eq!(ledger.bootstrap(&w).ok(), Some(BootstrapStep::ApplyGenesis));
    assert!(ledger.committed().unwrap().same_as(&w));
    assert_eq!(ledger.bootstrap(&w).ok(), Some(BootstrapStep::AlreadyBootstrapped));
    assert_eq!(ledger.committed().unwrap().to_text(), w.to_text());
}

#[test]
fn bootstrap_with_other_genesis_is_refused() {
    let a = Waypoint::new(0, counting_hash());
    let b = Waypoint::new(0, [7u8; 32]);
    let mut ledger = LedgerGenesis::committed_at(a);
    match ledger.bootstrap(&b) {
        Err(GenesisError::WaypointMismatch { expected, actual }) => {
            assert!(expected.same_as(&b));
            assert!(actual.same_as(&a));
        }
        _ => panic!("expected WaypointMismatch"),
    }
    assert!(ledger.committed().unwrap().same_as(&a));
}

#[test]
fn second_handle_on_same_path_fails_until_release() {
    let mut handles = DatabaseHandles::new();
    let p = String::from("/tmp/chain/.move-chain-data");
    let first = handles.open(&p).ok().unwrap();
    assert!(handles.is_open(&p));
    match handles.open(&p) {
        Err(GenesisError::StorageOpen { path }) => assert_eq!(path, p),
        _ => panic!("expected StorageOpen"),
    }
    let other = String::from("/tmp/other");
    assert!(handles.open(&other).is_ok());
    assert_eq!(first.path(), &p);
    handles.close(first);
    assert!(!handles.is_open(&p));
    assert!(handles.open(&p).is_ok());
}

#[test]
fn end_to_end_genesis_under_tmp_chain() {
    let w = Waypoint::new(0, counting_hash());
    let mut ledger = LedgerGenesis::empty();
    let record = drive_to_persist("/tmp/chain", vec![1, 2, 3], w, &mut ledger, vec![9u8; 32]);
    assert_eq!(record.known_version, 0);
    assert_eq!(record.db_path, "/tmp/chain/.move-chain-data");
    assert_eq!(record.waypoint, w.to_text());
    let (version, hash) = record.waypoint.split_once(':').unwrap();
    assert_eq!(version, "0");
    assert_eq!(hash.len(), 64);
    assert!(hash.chars().all(|c| c.is_ascii_hexdigit() && !c.is_ascii_uppercase()));
    assert_eq!(record.genesis_hash, vec![9u8; 32]);
    assert_eq!(record.validator_signer, vec![1, 2, 3]);
}

#[test]
fn rerun_against_bootstrapped_database_is_noop() {
    let w = Waypoint::new(0, counting_hash());
    let mut ledger = LedgerGenesis::empty();
    let first = drive_to_persist("/tmp/chain", vec![4, 5], w, &mut ledger, vec![1u8; 32]);
    let second = drive_to_persist("/tmp/chain", vec![4, 5], w, &mut ledger, vec![1u8; 32]);
    assert!(ledger.committed().unwrap().same_as(&w));
    assert_eq!(first.validator_signer, second.validator_signer);
    assert_eq!(first.db_path, second.db_path);
    assert_eq!(first.waypoint, second.waypoint);
    assert_eq!(first.known_version, second.known_version);
    assert_eq!(first.genesis_hash, second.genesis_hash);
}

#[test]
fn encoding_failure_fails_with_serialization() {
    let mut run = GenesisRun::new("/tmp/chain");
    let a = run.genesis_created(None);
    assert!(matches!(a, Action::Fail { error: GenesisError::Serialization, release_database: false }));
    assert_eq!(run.phase(), Phase::Failed);
}

#[test]
fn directory_failure_names_the_path() {
    let mut run = GenesisRun::new("/root/locked");
    run.genesis_created(Some(vec![0]));
    match run.directory_ensured(false) {
        Action::Fail { error: GenesisError::DirectoryCreation { path }, release_database: false } => {
            assert_eq!(path, "/root/locked/.move-chain-data")
        }
        _ => panic!("expected DirectoryCreation"),
    }
}

#[test]
fn locked_database_fails_with_storage_open() {
    let mut run = GenesisRun::new("/tmp/chain");
    run.genesis_created(Some(vec![0]));
    run.directory_ensured(true);
    match run.database_opened(false) {
        Action::Fail { error: GenesisError::StorageOpen { path }, release_database: false } => {
            assert_eq!(path, "/tmp/chain/.move-chain-data")
        }
        _ => panic!("expected StorageOpen"),
    }
    assert_eq!(run.phase(), Phase::Failed);
}

#[test]
fn divergent_database_fails_and_releases() {
    let mut run = GenesisRun::new("/tmp/chain");
    run.genesis_created(Some(vec![0]));
    run.directory_ensured(true);
    run.database_opened(true);
    let old = LedgerGenesis::committed_at(Waypoint::new(0, [3u8; 32]));
    match run.waypoint_computed(Waypoint::new(0, counting_hash()), &old) {
        Action::Fail { error, release_database: true } => {
            assert!(error.describe().contains("0:0303"));
            assert!(matches!(error, GenesisError::WaypointMismatch { .. }));
        }
        _ => panic!("expected WaypointMismatch"),
    }
}

#[test]
fn applied_genesis_must_match_waypoint() {
    let mut run = GenesisRun::new("/tmp/chain");
    run.genesis_created(Some(vec![0]));
    run.directory_ensured(true);
    run.database_opened(true);
    let w = Waypoint::new(0, counting_hash());
    assert!(matches!(run.waypoint_computed(w, &LedgerGenesis::empty()), Action::ApplyGenesis { .. }));
    let a = run.genesis_applied(Waypoint::new(0, [1u8; 32]));
    assert!(matches!(a, Action::Fail { error: GenesisError::WaypointMismatch { .. }, release_database: true }));
}

#[test]
fn missing_block_fails_with_storage_open() {
    let mut run = GenesisRun::new("/tmp/chain");
    run.genesis_created(Some(vec![0]));
    run.directory_ensured(true);
    run.database_opened(true);
    let w = Waypoint::new(0, counting_hash());
    run.waypoint_computed(w, &LedgerGenesis::committed_at(w));
    run.database_released();
    let a = run.genesis_block_read(None);
    assert!(matches!(a, Action::Fail { error: GenesisError::StorageOpen { .. }, release_database: true }));
}

#[test]
fn every_error_has_a_message() {
    let e = GenesisError::DirectoryCreation { path: String::from("/x") };
    assert_eq!(e.describe(), "cannot create the ledger directory /x");
    let e = GenesisError::StorageOpen { path: String::from("/y") };
    assert_eq!(e.describe(), "cannot open the ledger database at /y");
    assert!(!GenesisError::Serialization.describe().is_empty());
}
