//! Behavioral tests for the ledger core: registration, balance adjustment,
//! root-hash determinism, snapshot isolation and the API surface.

use exoneum_core::api::{ApiError, ExoneumCoreApi};
use exoneum_core::data_layout::{PublicKey, User};
use exoneum_core::schema::{ExoneumCoreSchema, Ledger};
use exoneum_core::store::AuthenticatedUserStore;
use exoneum_core::transactions::{CreateUser, ErrorKind};
use exoneum_core::{ExoneumCoreService, ExoneumCoreServiceFactory, ISSUE_AMOUNT};

fn key(n: u64) -> PublicKey {
    PublicKey { w0: n, w1: n.wrapping_mul(7), w2: 3, w3: 0 }
}

fn registered_ledger(entries: &[(u64, &str)]) -> Ledger {
    let mut ledger = Ledger::new();
    ledger.set_consensus_time(1_000);
    let mut fork = ledger.fork();
    for (n, name) in entries {
        let tx = CreateUser::new(key(*n), (*name).to_string(), vec![0u8; 64]);
        let r = tx.execute(&mut fork);
        assert!(r.is_ok());
    }
    ledger.merge(fork);
    ledger
}

#[test]
fn create_user_registers_and_changes_root() {
    let mut ledger = Ledger::new();
    ledger.set_consensus_time(42);
    let root_before = ledger.snapshot().users().merkle_root();

    let mut fork = ledger.fork();
    let tx = CreateUser::new(key(1), "alice".to_string(), vec![0u8; 64]);
    assert!(tx.execute(&mut fork).is_ok());
    ledger.merge(fork);

    let snapshot = ledger.snapshot();
    let user = snapshot.users().get(&key(1)).expect("user must be registered");
    assert_eq!(user.public_key(), key(1));
    assert_eq!(user.name().as_str(), "alice");
    assert_eq!(user.balance(), ISSUE_AMOUNT);
    assert_eq!(user.balance(), 100);
    assert_eq!(user.user_address(), 0);

    let root_after = snapshot.users().merkle_root();
    assert!(!(root_before == root_after));
}

#[test]
fn create_user_twice_rejected_and_root_unchanged() {
    let mut ledger = registered_ledger(&[(1, "alice")]);
    let root_before = ledger.snapshot().users().merkle_root();

    let mut fork = ledger.fork();
    let tx = CreateUser::new(key(1), "alice".to_string(), vec![0u8; 64]);
    let r = tx.execute(&mut fork);
    let err = r.expect_err("second registration must be rejected");
    assert_eq!(err.code(), ErrorKind::UserAlreadyRegistered.as_code());
    assert_eq!(err.code(), 6);
    ledger.merge(fork);

    let snapshot = ledger.snapshot();
    assert_eq!(snapshot.users().len(), 1);
    let root_after = snapshot.users().merkle_root();
    assert!(root_before == root_after);
}

#[test]
fn execute_without_oracle_time_is_explicit_error() {
    let ledger = Ledger::new();
    let mut fork = ledger.fork();
    let tx = CreateUser::new(key(1), "alice".to_string(), vec![0u8; 64]);
    let err = tx.execute(&mut fork).expect_err("no oracle fact: explicit error");
    assert_eq!(err.code(), ErrorKind::TimeOracleNotReady.as_code());
    assert!(fork.users().get(&key(1)).is_none());
}

#[test]
fn root_hash_is_order_independent() {
    let mut a = AuthenticatedUserStore::new();
    let mut b = AuthenticatedUserStore::new();
    let users = [
        User::new(key(5), "eve".to_string(), 10),
        User::new(key(2), "bob".to_string(), 20),
        User::new(key(9), "mallory".to_string(), 30),
    ];
    for u in users.iter() {
        a.put(u.duplicate());
    }
    for u in users.iter().rev() {
        b.put(u.duplicate());
    }
    assert!(a.merkle_root() == b.merkle_root());

    // Replacing a record changes the contents, and with them the root.
    b.put(User::new(key(2), "bob".to_string(), 21));
    assert!(!(a.merkle_root() == b.merkle_root()));
}

#[test]
fn store_proofs_check_against_the_root() {
    let ledger = registered_ledger(&[(1, "alice"), (5, "eve")]);
    let snapshot = ledger.snapshot();
    let root = snapshot.users().merkle_root();
    let proof = snapshot.users().get_proof();
    // Inclusion: the disclosed record for a present key.
    let res = proof.check(&root, &key(1)).expect("proof must match its own root");
    let user = res.expect("the key is included");
    assert_eq!(user.name().as_str(), "alice");
    assert_eq!(user.balance(), 100);
    // Exclusion: a definite absence for an absent key.
    let res = proof.check(&root, &key(9)).expect("proof must match its own root");
    assert!(res.is_none());
    // A proof cannot speak for another root.
    let other = registered_ledger(&[(2, "bob")]);
    let other_root = other.snapshot().users().merkle_root();
    assert!(proof.check(&other_root, &key(1)).is_none());
}

#[test]
fn get_user_absent_is_not_found_and_forks_are_isolated() {
    let ledger = registered_ledger(&[(1, "alice")]);
    let api = ExoneumCoreApi;
    assert!(api.get_user(&ledger, &key(77)).is_none());

    // A fork accumulating writes is invisible to queries until merged.
    let mut fork = ledger.fork();
    let tx = CreateUser::new(key(2), "bob".to_string(), vec![0u8; 64]);
    assert!(tx.execute(&mut fork).is_ok());
    let listed = api.get_users(&ledger);
    assert_eq!(listed.len(), 1);
    assert_eq!(listed[0].name().as_str(), "alice");
    assert!(api.get_user(&ledger, &key(2)).is_none());
}

#[test]
fn list_users_follows_store_key_order() {
    let ledger = registered_ledger(&[(9, "mallory"), (1, "alice"), (5, "eve")]);
    let api = ExoneumCoreApi;
    let listed = api.get_users(&ledger);
    assert_eq!(listed.len(), 3);
    // Key order over the limbs, not insertion order.
    assert_eq!(listed[0].name().as_str(), "alice");
    assert_eq!(listed[1].name().as_str(), "eve");
    assert_eq!(listed[2].name().as_str(), "mallory");
}

#[test]
fn increase_then_decrease_restores_balance() {
    let ledger = registered_ledger(&[(1, "alice")]);
    let mut schema = ExoneumCoreSchema::new(ledger.fork());
    assert!(schema.increase_user_balance(&key(1), 40).is_ok());
    assert!(schema.decrease_user_balance(&key(1), 40).is_ok());
    let view = schema.into_view();
    let user = view.users().get(&key(1)).unwrap();
    assert_eq!(user.balance(), 100);
    assert_eq!(user.name().as_str(), "alice");
}

#[test]
fn decrease_of_whole_balance_reaches_zero() {
    let ledger = registered_ledger(&[(1, "alice")]);
    let mut schema = ExoneumCoreSchema::new(ledger.fork());
    assert!(schema.decrease_user_balance(&key(1), 100).is_ok());
    let view = schema.into_view();
    assert_eq!(view.users().get(&key(1)).unwrap().balance(), 0);
}

#[test]
fn decrease_beyond_balance_is_insufficient_funds() {
    let ledger = registered_ledger(&[(1, "alice")]);
    let mut schema = ExoneumCoreSchema::new(ledger.fork());
    let err = schema.decrease_user_balance(&key(1), 101).expect_err("overdraft");
    assert_eq!(err.code(), ErrorKind::InsufficientFunds.as_code());
    assert_eq!(err.code(), 3);
    assert_eq!(err.description().as_str(), "Insufficient funds.");
    let view = schema.into_view();
    assert_eq!(view.users().get(&key(1)).unwrap().balance(), 100);
}

#[test]
fn balance_helpers_on_absent_user_are_explicit_errors() {
    let ledger = registered_ledger(&[(1, "alice")]);
    let mut schema = ExoneumCoreSchema::new(ledger.fork());
    let err = schema.increase_user_balance(&key(8), 5).expect_err("absent user");
    assert_eq!(err.code(), ErrorKind::UserIsNotRegistered.as_code());
    assert_eq!(err.code(), 7);
    let err = schema.decrease_user_balance(&key(8), 5).expect_err("absent user");
    assert_eq!(err.code(), ErrorKind::UserIsNotRegistered.as_code());
}

#[test]
fn error_codes_are_stable() {
    assert_eq!(ErrorKind::EarlyBreeding.as_code(), 1);
    assert_eq!(ErrorKind::EarlyIssue.as_code(), 2);
    assert_eq!(ErrorKind::InsufficientFunds.as_code(), 3);
    assert_eq!(ErrorKind::AccessViolation.as_code(), 4);
    assert_eq!(ErrorKind::SelfBreeding.as_code(), 5);
    assert_eq!(ErrorKind::UserAlreadyRegistered.as_code(), 6);
    assert_eq!(ErrorKind::UserIsNotRegistered.as_code(), 7);
    assert_eq!(ErrorKind::OwlNotFound.as_code(), 8);
    assert_eq!(ErrorKind::OwlNotOwned.as_code(), 9);
    assert_eq!(ErrorKind::OwlAlreadyAuctioned.as_code(), 10);
    assert_eq!(ErrorKind::AuctionNotFound.as_code(), 11);
    assert_eq!(ErrorKind::AuctionClosed.as_code(), 12);
    assert_eq!(ErrorKind::BidTooLow.as_code(), 13);
    assert_eq!(ErrorKind::UnauthorizedTransaction.as_code(), 14);
    assert_eq!(ErrorKind::NoSelfBidding.as_code(), 15);
    assert_eq!(ErrorKind::TimeOracleNotReady.as_code(), 16);
    assert_eq!(ErrorKind::UserAlreadyRegistered.description().as_str(),
        "User is already registered");
}

#[test]
fn service_identity_and_state_hash() {
    let service = ExoneumCoreService;
    assert_eq!(service.service_name(), "exoneum_core");
    assert_eq!(service.service_id(), 9999);

    let ledger = registered_ledger(&[(1, "alice")]);
    let snapshot = ledger.snapshot();
    let hashes = service.state_hash(&snapshot);
    assert_eq!(hashes.len(), 1);
    assert!(hashes[0] == snapshot.users().merkle_root());
    assert_eq!(service.handle_commit(&snapshot), Some(1_000));

    let mut factory = ExoneumCoreServiceFactory;
    let made = factory.make_service();
    assert_eq!(made.service_id(), 9999);

    // The schema accessor reports the same single table root.
    let schema = ExoneumCoreSchema::new(ledger.snapshot());
    assert_eq!(schema.users().len(), 1);
    let table_hashes = schema.state_hash();
    assert_eq!(table_hashes.len(), 1);
    assert!(table_hashes[0] == hashes[0]);
}

#[test]
fn post_transaction_rejects_malformed_bodies() {
    let api = ExoneumCoreApi;
    // Empty body.
    assert!(matches!(api.post_transaction(&Vec::new()), Err(ApiError::BadRequest)));
    // Too short.
    assert!(matches!(api.post_transaction(&vec![0u8; 99]), Err(ApiError::BadRequest)));
    // Wrong service identifier in the header.
    let tx = CreateUser::new(key(1), "alice".to_string(), vec![0u8; 64]);
    let mut bytes = tx.to_bytes();
    bytes[0] = 0;
    bytes[1] = 0;
    assert!(matches!(api.post_transaction(&bytes), Err(ApiError::BadRequest)));
    // Name bytes that are not valid UTF-8.
    let mut bytes = tx.to_bytes();
    let name_at = 36;
    bytes[name_at] = 0xFF;
    assert!(matches!(api.post_transaction(&bytes), Err(ApiError::BadRequest)));
}

#[test]
fn wire_round_trip_preserves_the_transaction() {
    let tx = CreateUser::new(key(3), "carol".to_string(), vec![9u8; 64]);
    let bytes = tx.to_bytes();
    let service = ExoneumCoreService;
    let parsed = service.tx_from_raw(&bytes).expect("wire form must parse");
    assert_eq!(parsed.public_key(), key(3));
    assert_eq!(parsed.name().as_str(), "carol");
    assert_eq!(parsed.signature().as_slice(), &[9u8; 64][..]);
}
