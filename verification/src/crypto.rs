//! Cryptographic primitives consumed by the ledger core: the digest used for
//! state commitments and transaction hashes, and signature verification for
//! transaction admission. Both are outside algorithms; their results are
//! named, and everything the core proves is stated over those names.

use vstd::prelude::*;

use ed25519_dalek::Verifier;
use sha2::Digest;

verus! {

/// Number of bytes in a digest.
pub const HASH_LENGTH: usize = 32;

/// The SHA-256 digest of a byte string. The digest depends on the bytes
/// alone; nothing more is assumed of it.
pub uninterp spec fn digest_of(bytes: Seq<u8>) -> Seq<u8>;

/// Whether `sig` is a valid Ed25519 signature over `msg` by the key encoded
/// in `pk`. Verification is deterministic in its three arguments; bytes that
/// encode no valid key or signature verify against nothing.
pub uninterp spec fn sig_valid(pk: Seq<u8>, msg: Seq<u8>, sig: Seq<u8>) -> bool;

/// A 32-byte cryptographic digest.
#[derive(Debug)]
pub struct Hash {
    bytes: Vec<u8>,
}

impl View for Hash {
    type V = Seq<u8>;

    closed spec fn view(&self) -> Seq<u8> {
        self.bytes@
    }
}

impl Hash {
    /// Well-formed digests hold exactly 32 bytes.
    pub open spec fn wf(&self) -> bool {
        self@.len() == HASH_LENGTH
    }

    pub fn as_bytes(&self) -> (r: &Vec<u8>)
        ensures
            r@ == self@,
    {
        &self.bytes
    }

    /// An independent copy of the digest.
    pub fn duplicate(&self) -> (r: Hash)
        ensures
            r@ == self@,
            r.wf() == self.wf(),
    {
        Hash { bytes: clone_bytes(&self.bytes) }
    }
}

impl PartialEq for Hash {
    fn eq(&self, other: &Hash) -> (r: bool) {
        eq_bytes(&self.bytes, &other.bytes)
    }
}

impl vstd::std_specs::cmp::PartialEqSpecImpl for Hash {
    open spec fn obeys_eq_spec() -> bool {
        true
    }

    open spec fn eq_spec(&self, other: &Hash) -> bool {
        self@ == other@
    }
}

/// Byte-wise equality of two byte vectors.
pub fn eq_bytes(a: &Vec<u8>, b: &Vec<u8>) -> (r: bool)
    ensures
        r == (a@ == b@),
{
    if a.len() != b.len() {
        assert(a@ != b@);
        return false;
    }
    let n = a.len();
    let mut i: usize = 0;
    while i < n
        invariant
            n == a@.len() && n == b@.len(),
            i <= n,
            forall|j: int| 0 <= j < i ==> a@[j] == b@[j],
        decreases n - i,
    {
        if a[i] != b[i] {
            assert(a@ != b@);
            return false;
        }
        i += 1;
    }
    assert(a@ =~= b@);
    true
}

/// An element-wise copy of a byte vector.
pub fn clone_bytes(a: &Vec<u8>) -> (r: Vec<u8>)
    ensures
        r@ == a@,
{
    let mut r: Vec<u8> = Vec::new();
    let n = a.len();
    let mut i: usize = 0;
    while i < n
        invariant
            n == a@.len(),
            i <= n,
            r@ =~= a@.take(i as int),
        decreases n - i,
    {
        r.push(a[i]);
        assert(r@ =~= a@.take(i as int + 1));
        i += 1;
    }
    assert(r@ =~= a@);
    r
}

/// Relies on `sha2::Sha256::digest`: the 32-byte SHA-256 digest of the input,
/// a function of the input bytes alone.
#[verifier::external_body]
pub fn sha256_digest(bytes: &Vec<u8>) -> (r: Hash)
    ensures
        r@ == digest_of(bytes@),
        r@.len() == HASH_LENGTH,
{
    let d = sha2::Sha256::digest(bytes.as_slice());
    Hash { bytes: d.to_vec() }
}

/// Relies on `ed25519_dalek::VerifyingKey::verify`: deterministic Ed25519
/// signature verification of `msg` against the key encoded in `pk`. Byte
/// strings that decode to no valid key or signature verify as false.
#[verifier::external_body]
pub fn ed25519_verify(pk: &Vec<u8>, msg: &Vec<u8>, sig: &Vec<u8>) -> (r: bool)
    ensures
        r == sig_valid(pk@, msg@, sig@),
{
    let key_bytes: [u8; 32] = match pk.as_slice().try_into() {
        Ok(b) => b,
        Err(_) => return false,
    };
    let key = match ed25519_dalek::VerifyingKey::from_bytes(&key_bytes) {
        Ok(k) => k,
        Err(_) => return false,
    };
    let sig_bytes: [u8; 64] = match sig.as_slice().try_into() {
        Ok(b) => b,
        Err(_) => return false,
    };
    let signature = ed25519_dalek::Signature::from_bytes(&sig_bytes);
    key.verify(msg.as_slice(), &signature).is_ok()
}

} // verus!
