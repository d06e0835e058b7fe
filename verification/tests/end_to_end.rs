//! End-to-end flow: a validly signed registration is submitted through the
//! API, verified, executed against a fork, committed, and then visible to
//! queries — and the trusted cryptographic wrappers agree with the outside
//! crates they rely on.

use ed25519_dalek::{Signer, SigningKey};
use sha2::Digest;

use exoneum_core::api::ExoneumCoreApi;
use exoneum_core::data_layout::PublicKey;
use exoneum_core::schema::Ledger;
use exoneum_core::transactions::CreateUser;

fn keypair() -> (SigningKey, PublicKey) {
    let seed: [u8; 32] = [7u8; 32];
    let signing = SigningKey::from_bytes(&seed);
    let pk_bytes = signing.verifying_key().to_bytes();
    (signing, PublicKey::from_bytes(&pk_bytes))
}

fn signed_create_user(name: &str) -> (CreateUser, PublicKey) {
    let (signing, public_key) = keypair();
    let unsigned = CreateUser::new(public_key, name.to_string(), vec![0u8; 64]);
    let signature = signing.sign(&unsigned.body_bytes());
    let tx = CreateUser::new(public_key, name.to_string(), signature.to_bytes().to_vec());
    (tx, public_key)
}

#[test]
fn submit_execute_commit_and_query() {
    let (tx, public_key) = signed_create_user("Alice");
    let body = tx.to_bytes();

    // Submit: parse plus content hash, handed to the host's channel.
    let api = ExoneumCoreApi;
    let (tx_hash, parsed) = match api.post_transaction(&body) {
        Ok(pair) => pair,
        Err(_) => panic!("a well-formed body must be accepted"),
    };
    let expected: Vec<u8> = sha2::Sha256::digest(&body).to_vec();
    assert_eq!(tx_hash.as_bytes().as_slice(), expected.as_slice());

    // Verify: the stateless admission check passes for the honest signer.
    assert!(parsed.verify());

    // Execute against a fork of the committed state, then commit.
    let mut ledger = Ledger::new();
    ledger.set_consensus_time(1_700_000_000);
    let mut fork = ledger.fork();
    assert!(parsed.execute(&mut fork).is_ok());
    ledger.merge(fork);

    // Query: the committed record is visible with the issued balance.
    let user = api.get_user(&ledger, &public_key).expect("committed user is visible");
    assert_eq!(user.public_key(), public_key);
    assert_eq!(user.name().as_str(), "Alice");
    assert_eq!(user.balance(), 100);
}

#[test]
fn tampered_transaction_fails_verification() {
    let (tx, public_key) = signed_create_user("Alice");
    assert!(tx.verify());

    // Same signature over different declared fields must not verify.
    let forged = CreateUser::new(
        public_key,
        "Mallory".to_string(),
        tx.signature().clone(),
    );
    assert!(!forged.verify());

    // A corrupted signature must not verify either.
    let mut sig = tx.signature().clone();
    sig[0] ^= 1;
    let corrupted = CreateUser::new(public_key, "Alice".to_string(), sig);
    assert!(!corrupted.verify());
}

#[test]
fn merkle_root_matches_recomputed_digest() {
    // The root must be the SHA-256 digest of the canonical serialization:
    // identifier bytes, name length, name bytes, balance, address.
    let key = PublicKey { w0: 11, w1: 0, w2: 0, w3: 0 };
    let mut ledger = Ledger::new();
    ledger.set_consensus_time(5);
    let mut fork = ledger.fork();
    let tx = CreateUser::new(key, "ann".to_string(), vec![0u8; 64]);
    assert!(tx.execute(&mut fork).is_ok());
    ledger.merge(fork);

    let mut expected_preimage: Vec<u8> = Vec::new();
    expected_preimage.extend_from_slice(&11u64.to_le_bytes());
    expected_preimage.extend_from_slice(&0u64.to_le_bytes());
    expected_preimage.extend_from_slice(&0u64.to_le_bytes());
    expected_preimage.extend_from_slice(&0u64.to_le_bytes());
    expected_preimage.extend_from_slice(&3u64.to_le_bytes());
    expected_preimage.extend_from_slice(b"ann");
    expected_preimage.extend_from_slice(&100u64.to_le_bytes());
    expected_preimage.extend_from_slice(&0u32.to_le_bytes());
    let expected: Vec<u8> = sha2::Sha256::digest(&expected_preimage).to_vec();

    let root = ledger.snapshot().users().merkle_root();
    assert_eq!(root.as_bytes().as_slice(), expected.as_slice());
}
