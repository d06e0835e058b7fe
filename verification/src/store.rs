//! The authenticated user store: a dictionary from public identifiers to
//! user records whose entire contents are summarised by one root hash.
//!
//! Entries are held strictly sorted by identifier, so the byte string that
//! the root hash digests is a function of the key-value contents alone —
//! never of the order in which records were put.

use vstd::prelude::*;
use vstd::bytes::*;
use vstd::string::*;
use vstd::utf8::encode_utf8;

use crate::crypto::{digest_of, sha256_digest};
use crate::data_layout::{User, UserView};
use crate::data_layout::PublicKey;

verus! {

/// Whether some entry of `s` carries the identifier `k`.
pub open spec fn has_key(s: Seq<UserView>, k: PublicKey) -> bool {
    exists|i: int| 0 <= i < s.len() && s[i].public_key == k
}

/// An index of `s` whose entry carries the identifier `k`.
pub open spec fn key_index(s: Seq<UserView>, k: PublicKey) -> int {
    choose|i: int| 0 <= i < s.len() && s[i].public_key == k
}

/// The dictionary described by a sequence of entries.
pub open spec fn entries_map(s: Seq<UserView>) -> Map<PublicKey, UserView> {
    Map::new(|k: PublicKey| has_key(s, k), |k: PublicKey| s[key_index(s, k)])
}

/// Entries strictly ascending by identifier; strictness makes every
/// identifier occur at most once.
pub open spec fn sorted_by_key(s: Seq<UserView>) -> bool {
    forall|i: int, j: int| 0 <= i < j < s.len()
        ==> (#[trigger] s[i].public_key).lt_spec(#[trigger] s[j].public_key)
}

/// The canonical byte form of one entry: identifier, name length, name
/// bytes, balance, address, each in its fixed little-endian layout.
pub open spec fn user_bytes(u: UserView) -> Seq<u8> {
    u.public_key.bytes_spec() + spec_u64_to_le_bytes(encode_utf8(u.name).len() as u64)
        + encode_utf8(u.name) + spec_u64_to_le_bytes(u.balance)
        + spec_u32_to_le_bytes(u.user_address)
}

/// The canonical byte form of a whole entry sequence.
pub open spec fn entries_bytes(s: Seq<UserView>) -> Seq<u8>
    decreases s.len(),
{
    if s.len() == 0 {
        Seq::empty()
    } else {
        entries_bytes(s.drop_last()) + user_bytes(s.last())
    }
}

/// In a sorted sequence an identifier occurs at one index only.
pub proof fn lemma_key_index(s: Seq<UserView>, i: int)
    requires
        sorted_by_key(s),
        0 <= i < s.len(),
    ensures
        has_key(s, s[i].public_key),
        key_index(s, s[i].public_key) == i,
{
    let k = s[i].public_key;
    assert(has_key(s, k));
    let j = key_index(s, k);
    assert(0 <= j < s.len() && s[j].public_key == k);
    if j < i {
        assert(s[j].public_key.lt_spec(s[i].public_key));
        assert(false);
    }
    if i < j {
        assert(s[i].public_key.lt_spec(s[j].public_key));
        assert(false);
    }
}

/// Dropping the first entry of a sorted sequence removes exactly its key
/// from the described dictionary.
proof fn lemma_entries_map_drop_first(s: Seq<UserView>)
    requires
        sorted_by_key(s),
        s.len() > 0,
    ensures
        sorted_by_key(s.drop_first()),
        entries_map(s.drop_first()) =~= entries_map(s).remove(s[0].public_key),
{
    let t = s.drop_first();
    let k0 = s[0].public_key;
    assert forall|k: PublicKey| has_key(t, k) implies has_key(s, k) && k != k0 by {
        let i = choose|i: int| 0 <= i < t.len() && t[i].public_key == k;
        assert(s[i + 1].public_key == k);
        assert(s[0].public_key.lt_spec(s[i + 1].public_key));
    }
    assert forall|k: PublicKey| has_key(s, k) && k != k0 implies has_key(t, k) by {
        let i = choose|i: int| 0 <= i < s.len() && s[i].public_key == k;
        assert(i != 0);
        assert(t[i - 1].public_key == k);
    }
    assert forall|k: PublicKey| has_key(t, k) implies entries_map(t)[k] == entries_map(s)[k] by {
        let i = key_index(t, k);
        assert(0 <= i < t.len() && t[i].public_key == k);
        assert(s[i + 1].public_key == k);
        lemma_key_index(s, i + 1);
        assert(t[i] == s[i + 1]);
    }
}

/// Two sorted entry sequences that describe the same dictionary are the
/// same sequence: the sorted form is canonical.
pub proof fn lemma_sorted_entries_canonical(s1: Seq<UserView>, s2: Seq<UserView>)
    requires
        sorted_by_key(s1),
        sorted_by_key(s2),
        entries_map(s1) == entries_map(s2),
    ensures
        s1 =~= s2,
    decreases s1.len(),
{
    if s1.len() == 0 {
        if s2.len() > 0 {
            assert(has_key(s2, s2[0].public_key));
            assert(entries_map(s2).contains_key(s2[0].public_key));
            assert(entries_map(s1).contains_key(s2[0].public_key));
            assert(false);
        }
    } else {
        if s2.len() == 0 {
            assert(has_key(s1, s1[0].public_key));
            assert(entries_map(s1).contains_key(s1[0].public_key));
            assert(entries_map(s2).contains_key(s1[0].public_key));
            assert(false);
        }
        let k1 = s1[0].public_key;
        let k2 = s2[0].public_key;
        lemma_key_index(s1, 0);
        lemma_key_index(s2, 0);
        if k1 != k2 {
            assert(entries_map(s1).contains_key(k1));
            assert(entries_map(s2).contains_key(k1));
            let j = key_index(s2, k1);
            assert(0 <= j < s2.len() && s2[j].public_key == k1);
            assert(j != 0);
            assert(k2.lt_spec(k1));
            assert(entries_map(s2).contains_key(k2));
            assert(entries_map(s1).contains_key(k2));
            let i = key_index(s1, k2);
            assert(0 <= i < s1.len() && s1[i].public_key == k2);
            assert(i != 0);
            assert(k1.lt_spec(k2));
            assert(false);
        }
        assert(entries_map(s1)[k1] == s1[0]);
        assert(entries_map(s2)[k1] == s2[0]);
        assert(s1[0] == s2[0]);
        lemma_entries_map_drop_first(s1);
        lemma_entries_map_drop_first(s2);
        lemma_sorted_entries_canonical(s1.drop_first(), s2.drop_first());
        assert(s1 =~= s2) by {
            assert(s1.len() == s2.len());
            assert(forall|i: int| 1 <= i < s1.len()
                ==> #[trigger] s1[i] == s1.drop_first()[i - 1] && s2[i] == s2.drop_first()[i - 1]);
        }
    }
}

/// The authenticated mapping from public identifiers to user records. Owns
/// every record; records are created and replaced wholesale through [`Self::put`]
/// and never deleted. The root hash summarises the full contents.
pub struct AuthenticatedUserStore {
    entries: Vec<User>,
}

impl View for AuthenticatedUserStore {
    type V = Map<PublicKey, UserView>;

    closed spec fn view(&self) -> Map<PublicKey, UserView> {
        entries_map(self.entries_seq())
    }
}

impl AuthenticatedUserStore {
    /// The entries in the store's key order.
    pub closed spec fn entries_seq(&self) -> Seq<UserView> {
        self.entries@.map_values(|u: User| u@)
    }

    /// Internal invariant: entries strictly sorted by identifier.
    pub closed spec fn wf(&self) -> bool {
        sorted_by_key(self.entries_seq())
    }

    /// The digest the current contents commit to.
    pub open spec fn root_spec(&self) -> Seq<u8> {
        digest_of(entries_bytes(self.entries_seq()))
    }

    /// An empty store.
    pub fn new() -> (r: AuthenticatedUserStore)
        ensures
            r.wf(),
            r@ =~= Map::<PublicKey, UserView>::empty(),
            r.entries_seq() =~= Seq::<UserView>::empty(),
    {
        let r = AuthenticatedUserStore { entries: Vec::new() };
        proof {
            assert forall|k: PublicKey| !has_key(r.entries_seq(), k) by {}
        }
        r
    }

    /// Point lookup by identifier: a binary search over the sorted entries.
    #[verifier::loop_isolation(false)]
    pub fn get(&self, key: &PublicKey) -> (r: Option<User>)
        requires
            self.wf(),
        ensures
            match r {
                Some(u) => self@.contains_key(*key) && u@ == self@[*key] && u@.public_key
                    == *key,
                None => !self@.contains_key(*key),
            },
    {
        let ghost s = self.entries_seq();
        let mut lo: usize = 0;
        let mut hi: usize = self.entries.len();
        while lo < hi
            invariant
                lo <= hi <= self.entries@.len(),
                forall|j: int| 0 <= j < lo ==> (#[trigger] s[j].public_key).lt_spec(*key),
                forall|j: int| hi <= j < s.len() ==> key.lt_spec(#[trigger] s[j].public_key),
            decreases hi - lo,
        {
            let mid = lo + (hi - lo) / 2;
            let u = &self.entries[mid];
            proof {
                assert(s[mid as int] == self.entries@[mid as int]@);
            }
            if u.public_key() == *key {
                proof {
                    lemma_key_index(s, mid as int);
                }
                return Some(u.duplicate());
            }
            if u.public_key().lt(key) {
                // Sortedness puts every earlier entry below the target too.
                proof {
                    assert forall|j: int| 0 <= j < mid + 1 implies (#[trigger] s[j].public_key)
                        .lt_spec(*key) by {
                        if j < mid {
                            assert(s[j].public_key.lt_spec(s[mid as int].public_key));
                        }
                    }
                }
                lo = mid + 1;
            } else {
                proof {
                    assert forall|j: int| mid <= j < s.len() implies key.lt_spec(
                        #[trigger] s[j].public_key) by {
                        if j > mid {
                            assert(s[mid as int].public_key.lt_spec(s[j].public_key));
                        }
                    }
                }
                hi = mid;
            }
        }
        proof {
            assert forall|i: int| 0 <= i < s.len() implies (#[trigger] s[i]).public_key != *key
                by {}
            assert(!has_key(s, *key));
        }
        None
    }

    /// Number of records.
    pub fn len(&self) -> (r: usize)
        ensures
            r == self.entries_seq().len(),
    {
        self.entries.len()
    }

    /// All records, in the store's key order (not insertion order).
    pub fn values(&self) -> (r: Vec<User>)
        ensures
            r@.map_values(|u: User| u@) =~= self.entries_seq(),
    {
        let mut r: Vec<User> = Vec::new();
        let n = self.entries.len();
        let mut i: usize = 0;
        while i < n
            invariant
                n == self.entries@.len(),
                i <= n,
                r@.len() == i,
                forall|j: int| 0 <= j < i ==> (#[trigger] r@[j])@ == self.entries_seq()[j],
            decreases n - i,
        {
            r.push(self.entries[i].duplicate());
            i += 1;
        }
        assert(r@.map_values(|u: User| u@) =~= self.entries_seq());
        r
    }

    /// Inserts the record under its own identifier, or replaces the record
    /// that identifier already carried.
    #[verifier::loop_isolation(false)]
    pub fn put(&mut self, user: User)
        requires
            old(self).wf(),
        ensures
            final(self).wf(),
            final(self)@ =~= old(self)@.insert(user@.public_key, user@),
    {
        let ghost s0 = self.entries_seq();
        let k = user.public_key();
        let n = self.entries.len();
        let mut i: usize = 0;
        while i < n
            invariant
                self.wf(),
                self.entries_seq() == s0,
                n == self.entries@.len(),
                i <= n,
                forall|j: int| 0 <= j < i ==> s0[j].public_key.lt_spec(user@.public_key),
            decreases n - i,
        {
            let cur = self.entries[i].public_key();
            proof {
                assert(s0[i as int] == self.entries@[i as int]@);
            }
            if cur == k {
                // replace wholesale
                let ghost v = user@;
                self.entries.remove(i);
                self.entries.insert(i, user);
                proof {
                    let s1 = self.entries_seq();
                    assert(s1 =~= s0.update(i as int, v));
                    lemma_put_at(s0, i as int, v);
                }
                return;
            }
            if !cur.lt(&k) {
                // cur > k: insert here
                proof {
                    assert(user@.public_key.lt_spec(s0[i as int].public_key));
                }
                let ghost v = user@;
                self.entries.insert(i, user);
                proof {
                    let s1 = self.entries_seq();
                    assert(s1 =~= s0.insert(i as int, v));
                    lemma_insert_at(s0, i as int, v);
                }
                return;
            }
            i += 1;
        }
        let ghost v = user@;
        self.entries.push(user);
        proof {
            let s1 = self.entries_seq();
            assert(s1 =~= s0.insert(n as int, v));
            lemma_insert_at(s0, n as int, v);
        }
    }

    /// The root hash: the digest of the canonical byte form of the whole
    /// contents. It is a pure function of the key-value contents; the order
    /// in which records were put cannot reach it.
    pub fn merkle_root(&self) -> (r: crate::crypto::Hash)
        ensures
            r@ == self.root_spec(),
            r.wf(),
    {
        records_digest(&self.entries)
    }

    /// Discloses the contents in canonical order as a proof of inclusion or
    /// exclusion, checkable against the root by [`StoreProof::check`].
    pub fn get_proof(&self) -> (p: StoreProof)
        requires
            self.wf(),
        ensures
            p.entries_seq() == self.entries_seq(),
            p.valid_for(self.root_spec()),
    {
        StoreProof { entries: self.values() }
    }

    /// An independent store with the same contents.
    pub fn duplicate(&self) -> (r: AuthenticatedUserStore)
        ensures
            r.entries_seq() =~= self.entries_seq(),
            r@ =~= self@,
            r.wf() == self.wf(),
    {
        let mut entries: Vec<User> = Vec::new();
        let n = self.entries.len();
        let mut i: usize = 0;
        while i < n
            invariant
                n == self.entries@.len(),
                i <= n,
                entries@.len() == i,
                forall|j: int| 0 <= j < i
                    ==> (#[trigger] entries@[j])@ == self.entries_seq()[j],
            decreases n - i,
        {
            entries.push(self.entries[i].duplicate());
            i += 1;
        }
        let r = AuthenticatedUserStore { entries };
        proof {
            assert(r.entries_seq() =~= self.entries_seq());
        }
        r
    }

    /// The root hash is order-independent: two stores holding the same set
    /// of (identifier, record) pairs — however those pairs were put — have
    /// the same root hash.
    pub proof fn lemma_root_hash_order_independent(&self, other: &AuthenticatedUserStore)
        requires
            self.wf(),
            other.wf(),
            self@ == other@,
        ensures
            self.root_spec() == other.root_spec(),
    {
        lemma_sorted_entries_canonical(self.entries_seq(), other.entries_seq());
        assert(self.entries_seq() =~= other.entries_seq());
    }
}

/// Replacing the entry at a key's own index updates exactly that key.
proof fn lemma_put_at(s: Seq<UserView>, i: int, v: UserView)
    requires
        sorted_by_key(s),
        0 <= i < s.len(),
        s[i].public_key == v.public_key,
    ensures
        sorted_by_key(s.update(i, v)),
        entries_map(s.update(i, v)) =~= entries_map(s).insert(v.public_key, v),
{
    let t = s.update(i, v);
    assert forall|k: PublicKey| has_key(t, k) implies entries_map(s).insert(v.public_key, v)
        .contains_key(k) by {
        let j = choose|j: int| 0 <= j < t.len() && t[j].public_key == k;
        if j != i {
            assert(s[j].public_key == k);
        }
    }
    assert forall|k: PublicKey| entries_map(s).insert(v.public_key, v).contains_key(k)
        implies has_key(t, k) by {
        if k == v.public_key {
            assert(t[i].public_key == k);
        } else {
            let j = key_index(s, k);
            assert(0 <= j < s.len() && s[j].public_key == k);
            assert(j != i);
            assert(t[j].public_key == k);
        }
    }
    assert forall|k: PublicKey| has_key(t, k) implies #[trigger] entries_map(t)[k]
        == entries_map(s).insert(v.public_key, v)[k] by {
        let j = key_index(t, k);
        assert(0 <= j < t.len() && t[j].public_key == k);
        lemma_key_index(t, j);
        if j == i {
            assert(entries_map(t)[k] == v);
        } else {
            assert(s[j].public_key == k);
            lemma_key_index(s, j);
            assert(k != v.public_key);
            assert(entries_map(t)[k] == s[j]);
        }
    }
}

/// Inserting an entry between its neighbours adds exactly its key.
proof fn lemma_insert_at(s: Seq<UserView>, i: int, v: UserView)
    requires
        sorted_by_key(s),
        0 <= i <= s.len(),
        forall|j: int| 0 <= j < i ==> (#[trigger] s[j].public_key).lt_spec(v.public_key),
        forall|j: int| i <= j < s.len() ==> v.public_key.lt_spec(#[trigger] s[j].public_key),
    ensures
        sorted_by_key(s.insert(i, v)),
        entries_map(s.insert(i, v)) =~= entries_map(s).insert(v.public_key, v),
{
    let t = s.insert(i, v);
    assert(t.len() == s.len() + 1);
    assert forall|p: int, q: int| 0 <= p < q < t.len() implies (#[trigger] t[p].public_key)
        .lt_spec(#[trigger] t[q].public_key) by {
        if p < i && q < i {
        } else if p < i && q == i {
        } else if p < i && q > i {
        } else if p == i {
            assert(t[q] == s[q - 1]);
        } else {
            assert(t[p] == s[p - 1]);
            assert(t[q] == s[q - 1]);
        }
    }
    assert forall|k: PublicKey| has_key(t, k) implies entries_map(s).insert(v.public_key, v)
        .contains_key(k) by {
        let j = choose|j: int| 0 <= j < t.len() && t[j].public_key == k;
        if j < i {
            assert(s[j].public_key == k);
        } else if j > i {
            assert(s[j - 1].public_key == k);
        }
    }
    assert forall|k: PublicKey| entries_map(s).insert(v.public_key, v).contains_key(k)
        implies has_key(t, k) by {
        if k == v.public_key {
            assert(t[i].public_key == k);
        } else {
            let j = key_index(s, k);
            assert(0 <= j < s.len() && s[j].public_key == k);
            if j < i {
                assert(t[j].public_key == k);
            } else {
                assert(t[j + 1].public_key == k);
            }
        }
    }
    assert forall|k: PublicKey| has_key(t, k) implies #[trigger] entries_map(t)[k]
        == entries_map(s).insert(v.public_key, v)[k] by {
        let j = key_index(t, k);
        assert(0 <= j < t.len() && t[j].public_key == k);
        lemma_key_index(t, j);
        if j == i {
            assert(entries_map(t)[k] == v);
        } else if j < i {
            assert(s[j].public_key == k);
            lemma_key_index(s, j);
            assert(k != v.public_key);
            assert(entries_map(t)[k] == s[j]);
        } else {
            assert(s[j - 1].public_key == k);
            lemma_key_index(s, j - 1);
            assert(k != v.public_key);
            assert(entries_map(t)[k] == s[j - 1]);
        }
    }
}

/// A proof of inclusion or exclusion of keys against a root: the disclosed
/// contents in canonical order. Checking recomputes the root, so a proof
/// that speaks for a root other than its own cannot pass.
pub struct StoreProof {
    entries: Vec<User>,
}

impl StoreProof {
    /// The disclosed records, in the order they were disclosed.
    pub closed spec fn entries_seq(&self) -> Seq<UserView> {
        self.entries@.map_values(|u: User| u@)
    }

    /// A proof is valid for a root when its disclosure is in canonical
    /// (strictly sorted) order and digests to that root.
    pub open spec fn valid_for(&self, root: Seq<u8>) -> bool {
        sorted_by_key(self.entries_seq()) && digest_of(entries_bytes(self.entries_seq())) == root
    }

    /// Checks the proof against a root and reads one key from it. Returns
    /// nothing when the disclosure is out of canonical order or does not
    /// digest to the root; otherwise the key's disclosed record, or its
    /// absence (the exclusion case), exactly as the disclosure states it.
    #[verifier::loop_isolation(false)]
    pub fn check(&self, root: &crate::crypto::Hash, key: &PublicKey) -> (r: Option<Option<User>>)
        ensures
            match r {
                Some(res) => self.valid_for(root@) && (match res {
                    Some(u) => entries_map(self.entries_seq()).contains_key(*key) && u@
                        == entries_map(self.entries_seq())[*key] && u@.public_key == *key,
                    None => !entries_map(self.entries_seq()).contains_key(*key),
                }),
                None => !self.valid_for(root@),
            },
    {
        let ghost s = self.entries_seq();
        let n = self.entries.len();
        // Canonical order first: adjacent records strictly ascending.
        let mut i: usize = 1;
        while i < n
            invariant
                1 <= i,
                forall|j: int| 1 <= j < i ==> (#[trigger] s[j - 1].public_key).lt_spec(
                    s[j].public_key,
                ),
            decreases n - i,
        {
            if !self.entries[i - 1].public_key().lt(&self.entries[i].public_key()) {
                proof {
                    assert(!s[i as int - 1].public_key.lt_spec(s[i as int].public_key));
                    lemma_adjacent_sorted_converse(s, i as int);
                }
                return None;
            }
            i += 1;
        }
        proof {
            lemma_adjacent_sorted(s);
        }
        // The disclosure must digest to the claimed root.
        let recomputed = records_digest(&self.entries);
        if !(recomputed == *root) {
            return None;
        }
        // Read the key from the disclosed contents.
        let mut i: usize = 0;
        while i < n
            invariant
                forall|j: int| 0 <= j < i ==> (#[trigger] s[j]).public_key != *key,
            decreases n - i,
        {
            let u = &self.entries[i];
            if u.public_key() == *key {
                proof {
                    lemma_key_index(s, i as int);
                }
                return Some(Some(u.duplicate()));
            }
            i += 1;
        }
        proof {
            assert(!has_key(s, *key));
        }
        Some(None)
    }
}

/// Strictly ascending adjacent records make the whole sequence sorted.
proof fn lemma_adjacent_sorted(s: Seq<UserView>)
    requires
        forall|j: int| 1 <= j < s.len() ==> (#[trigger] s[j - 1].public_key).lt_spec(
            s[j].public_key,
        ),
    ensures
        sorted_by_key(s),
{
    assert forall|i: int, j: int| 0 <= i < j < s.len() implies (#[trigger] s[i].public_key)
        .lt_spec(#[trigger] s[j].public_key) by {
        lemma_lt_chain(s, i, j);
    }
}

/// Transitive chain of the adjacent order from `i` up to `j`.
proof fn lemma_lt_chain(s: Seq<UserView>, i: int, j: int)
    requires
        forall|p: int| 1 <= p < s.len() ==> (#[trigger] s[p - 1].public_key).lt_spec(
            s[p].public_key,
        ),
        0 <= i < j < s.len(),
    ensures
        s[i].public_key.lt_spec(s[j].public_key),
    decreases j - i,
{
    assert(s[j - 1].public_key.lt_spec(s[j].public_key));
    if j > i + 1 {
        lemma_lt_chain(s, i, j - 1);
        assert(s[i].public_key.lt_spec(s[j - 1].public_key));
    }
}

/// One adjacent pair out of order refutes sortedness.
proof fn lemma_adjacent_sorted_converse(s: Seq<UserView>, i: int)
    requires
        1 <= i < s.len(),
        !s[i - 1].public_key.lt_spec(s[i].public_key),
    ensures
        !sorted_by_key(s),
{
}

/// The digest of the canonical byte form of the given records.
pub fn records_digest(entries: &Vec<User>) -> (r: crate::crypto::Hash)
    ensures
        r@ == digest_of(entries_bytes(entries@.map_values(|u: User| u@))),
        r.wf(),
{
    let ghost s = entries@.map_values(|u: User| u@);
    let mut bytes: Vec<u8> = Vec::new();
    let n = entries.len();
    let mut i: usize = 0;
    while i < n
        invariant
            n == entries@.len(),
            i <= n,
            s == entries@.map_values(|u: User| u@),
            bytes@ =~= entries_bytes(s.take(i as int)),
        decreases n - i,
    {
        let mut ub = user_record_bytes(&entries[i]);
        bytes.append(&mut ub);
        proof {
            assert(s.take(i as int + 1).drop_last() =~= s.take(i as int));
            assert(s.take(i as int + 1).last() == s[i as int]);
        }
        i += 1;
    }
    proof {
        assert(s.take(n as int) =~= s);
    }
    sha256_digest(&bytes)
}

/// The canonical byte form of one record, as [`user_bytes`] states it.
pub fn user_record_bytes(u: &User) -> (r: Vec<u8>)
    ensures
        r@ == user_bytes(u@),
{
    let mut r = u.public_key().to_bytes();
    let name_slice = u.name().as_str().as_bytes();
    let mut len_b = u64_to_le_bytes(name_slice.len() as u64);
    r.append(&mut len_b);
    let mut nb = vstd::slice::slice_to_vec(name_slice);
    r.append(&mut nb);
    let mut bb = u64_to_le_bytes(u.balance());
    r.append(&mut bb);
    let mut ab = u32_to_le_bytes(u.user_address());
    r.append(&mut ab);
    assert(r@ =~= user_bytes(u@));
    r
}

} // verus!
