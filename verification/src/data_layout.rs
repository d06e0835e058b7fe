//! Data structures stored in the ledger: the fixed-length public identifier
//! and the user record it keys.

use vstd::prelude::*;
use vstd::bytes::*;

verus! {

/// Number of bytes in a public identifier.
pub const PUBLIC_KEY_LENGTH: usize = 32;

/// A fixed-length (32-byte) public identifier, held as four 64-bit limbs in
/// little-endian order of significance. The limbs give the identifier a total
/// order that verified code can reason about directly.
#[derive(Clone, Copy, PartialEq, Eq, Structural, Debug)]
pub struct PublicKey {
    pub w0: u64,
    pub w1: u64,
    pub w2: u64,
    pub w3: u64,
}

impl PublicKey {
    /// The canonical 32-byte form of the identifier.
    pub open spec fn bytes_spec(self) -> Seq<u8> {
        spec_u64_to_le_bytes(self.w0) + spec_u64_to_le_bytes(self.w1)
            + spec_u64_to_le_bytes(self.w2) + spec_u64_to_le_bytes(self.w3)
    }

    /// The identifier encoded by 32 bytes.
    pub open spec fn from_bytes_spec(b: Seq<u8>) -> PublicKey {
        PublicKey {
            w0: spec_u64_from_le_bytes(b.subrange(0, 8)),
            w1: spec_u64_from_le_bytes(b.subrange(8, 16)),
            w2: spec_u64_from_le_bytes(b.subrange(16, 24)),
            w3: spec_u64_from_le_bytes(b.subrange(24, 32)),
        }
    }

    /// Strict total order on identifiers: lexicographic over the limbs from
    /// most significant to least.
    pub open spec fn lt_spec(self, other: PublicKey) -> bool {
        ||| self.w3 < other.w3
        ||| (self.w3 == other.w3 && self.w2 < other.w2)
        ||| (self.w3 == other.w3 && self.w2 == other.w2 && self.w1 < other.w1)
        ||| (self.w3 == other.w3 && self.w2 == other.w2 && self.w1 == other.w1
            && self.w0 < other.w0)
    }

    /// Exec comparison agreeing with `lt_spec`.
    pub fn lt(&self, other: &PublicKey) -> (r: bool)
        ensures
            r == self.lt_spec(*other),
    {
        if self.w3 != other.w3 {
            self.w3 < other.w3
        } else if self.w2 != other.w2 {
            self.w2 < other.w2
        } else if self.w1 != other.w1 {
            self.w1 < other.w1
        } else {
            self.w0 < other.w0
        }
    }

    /// Reads an identifier from its canonical 32-byte form.
    pub fn from_bytes(b: &[u8]) -> (r: PublicKey)
        requires
            b@.len() == PUBLIC_KEY_LENGTH,
        ensures
            r == PublicKey::from_bytes_spec(b@),
    {
        let w0 = u64_from_le_bytes(vstd::slice::slice_subrange(b, 0, 8));
        let w1 = u64_from_le_bytes(vstd::slice::slice_subrange(b, 8, 16));
        let w2 = u64_from_le_bytes(vstd::slice::slice_subrange(b, 16, 24));
        let w3 = u64_from_le_bytes(vstd::slice::slice_subrange(b, 24, 32));
        PublicKey { w0, w1, w2, w3 }
    }

    /// Writes the canonical 32-byte form of the identifier.
    pub fn to_bytes(&self) -> (r: Vec<u8>)
        ensures
            r@ == self.bytes_spec(),
            r@.len() == PUBLIC_KEY_LENGTH,
    {
        let mut r = u64_to_le_bytes(self.w0);
        let mut b1 = u64_to_le_bytes(self.w1);
        let mut b2 = u64_to_le_bytes(self.w2);
        let mut b3 = u64_to_le_bytes(self.w3);
        r.append(&mut b1);
        r.append(&mut b2);
        r.append(&mut b3);
        r
    }

    /// Round trip: reading back the canonical byte form yields the identifier.
    pub proof fn lemma_bytes_round_trip(self)
        ensures
            PublicKey::from_bytes_spec(self.bytes_spec()) == self,
    {
        lemma_auto_spec_u64_to_from_le_bytes();
        assert(self.bytes_spec().subrange(0, 8) =~= spec_u64_to_le_bytes(self.w0));
        assert(self.bytes_spec().subrange(8, 16) =~= spec_u64_to_le_bytes(self.w1));
        assert(self.bytes_spec().subrange(16, 24) =~= spec_u64_to_le_bytes(self.w2));
        assert(self.bytes_spec().subrange(24, 32) =~= spec_u64_to_le_bytes(self.w3));
    }
}

/// Mathematical model of a [`User`] record.
pub struct UserView {
    pub public_key: PublicKey,
    pub name: Seq<char>,
    pub balance: u64,
    pub user_address: u32,
}

/// A user record: the permanent identity, a display name set once at
/// creation, the current balance, and an opaque network address hint.
/// Records are immutable; a balance change replaces the whole record.
pub struct User {
    public_key: PublicKey,
    name: String,
    balance: u64,
    user_address: u32,
}

impl View for User {
    type V = UserView;

    closed spec fn view(&self) -> UserView {
        UserView {
            public_key: self.public_key,
            name: self.name@,
            balance: self.balance,
            user_address: self.user_address,
        }
    }
}

impl User {
    /// Creates a record with the given identity, name and balance; the
    /// address hint starts out unset (zero).
    pub fn new(public_key: PublicKey, name: String, balance: u64) -> (r: User)
        ensures
            r@ == (UserView { public_key, name: name@, balance, user_address: 0u32 }),
    {
        User { public_key, name, balance, user_address: 0 }
    }

    pub fn public_key(&self) -> (r: PublicKey)
        ensures
            r == self@.public_key,
    {
        self.public_key
    }

    pub fn name(&self) -> (r: &String)
        ensures
            r@ == self@.name,
    {
        &self.name
    }

    pub fn balance(&self) -> (r: u64)
        ensures
            r == self@.balance,
    {
        self.balance
    }

    pub fn user_address(&self) -> (r: u32)
        ensures
            r == self@.user_address,
    {
        self.user_address
    }

    /// The same identity, name and address with a new balance: the
    /// wholesale-replacement record for a balance adjustment.
    pub fn with_balance(&self, balance: u64) -> (r: User)
        ensures
            r@ == (UserView {
                public_key: self@.public_key,
                name: self@.name,
                balance,
                user_address: self@.user_address,
            }),
    {
        User {
            public_key: self.public_key,
            name: self.name.clone(),
            balance,
            user_address: self.user_address,
        }
    }

    /// An independent copy of the record with the same contents.
    pub fn duplicate(&self) -> (r: User)
        ensures
            r@ == self@,
    {
        User {
            public_key: self.public_key,
            name: self.name.clone(),
            balance: self.balance,
            user_address: self.user_address,
        }
    }
}

} // verus!
