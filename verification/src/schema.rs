//! Database schema: the service's view of committed state, the accessor
//! object wrapped around one view, and the host-side ledger that hands out
//! snapshots and forks and merges a fork atomically.

use vstd::prelude::*;

use crate::crypto::digest_of;
use crate::data_layout::{PublicKey, User, UserView};
use crate::store::{entries_bytes, AuthenticatedUserStore};

verus! {

/// The stable name under which the user table is persisted by the host's
/// storage. Part of the on-disk compatibility contract: it must not change
/// across versions without a migration.
pub const USERS_TABLE: &'static str = "exoneum_core.users";

/// A view of the service's state: the user table plus the consensus-agreed
/// current timestamp published by the time oracle (absent until the oracle
/// has produced one). A view obtained from [`Ledger::snapshot`] is read
/// point-in-time; one obtained from [`Ledger::fork`] accumulates one block's
/// writes and is merged back atomically or discarded as a unit.
pub struct StateView {
    users: AuthenticatedUserStore,
    consensus_time: Option<u64>,
}

impl StateView {
    /// The dictionary of registered users.
    pub closed spec fn users_map(&self) -> Map<PublicKey, UserView> {
        self.users@
    }

    /// The user records in the store's key order.
    pub closed spec fn users_entries(&self) -> Seq<UserView> {
        self.users.entries_seq()
    }

    /// The oracle timestamp this view holds, if any.
    pub closed spec fn time_spec(&self) -> Option<u64> {
        self.consensus_time
    }

    pub closed spec fn wf(&self) -> bool {
        self.users.wf()
    }

    /// The digest the user table commits to under this view.
    pub open spec fn users_root(&self) -> Seq<u8> {
        digest_of(entries_bytes(self.users_entries()))
    }

    /// An empty state: no users, no oracle fact yet.
    pub fn new() -> (r: StateView)
        ensures
            r.wf(),
            r.users_map() =~= Map::<PublicKey, UserView>::empty(),
            r.users_entries() =~= Seq::<UserView>::empty(),
            r.time_spec() is None,
    {
        StateView { users: AuthenticatedUserStore::new(), consensus_time: None }
    }

    /// The user table of this view.
    pub fn users(&self) -> (r: &AuthenticatedUserStore)
        ensures
            r@ == self.users_map(),
            r.entries_seq() == self.users_entries(),
            r.wf() == self.wf(),
    {
        &self.users
    }

    /// The oracle timestamp this view holds, if any.
    pub fn time(&self) -> (r: Option<u64>)
        ensures
            r == self.time_spec(),
    {
        self.consensus_time
    }

    /// Inserts or wholesale-replaces a record under its own identifier.
    pub fn put_user(&mut self, user: User)
        requires
            old(self).wf(),
        ensures
            final(self).wf(),
            final(self).users_map() =~= old(self).users_map().insert(
                user@.public_key,
                user@,
            ),
            final(self).time_spec() == old(self).time_spec(),
    {
        self.users.put(user);
    }

    /// An independent view with the same contents.
    pub fn duplicate(&self) -> (r: StateView)
        ensures
            r.users_map() =~= self.users_map(),
            r.users_entries() =~= self.users_entries(),
            r.time_spec() == self.time_spec(),
            r.wf() == self.wf(),
    {
        StateView { users: self.users.duplicate(), consensus_time: self.consensus_time }
    }
}

/// Accessor for the service's tables, bound to one state view.
pub struct ExoneumCoreSchema {
    view: StateView,
}

impl ExoneumCoreSchema {
    /// The view this accessor is bound to.
    pub closed spec fn state(&self) -> StateView {
        self.view
    }

    pub open spec fn wf(&self) -> bool {
        self.state().wf()
    }

    pub fn new(view: StateView) -> (s: ExoneumCoreSchema)
        ensures
            s.state() == view,
    {
        ExoneumCoreSchema { view }
    }

    /// Gives the bound view back, with any writes it accumulated.
    pub fn into_view(self) -> (r: StateView)
        ensures
            r == self.state(),
    {
        self.view
    }

    /// The user table.
    pub fn users(&self) -> (r: &AuthenticatedUserStore)
        ensures
            r@ == self.state().users_map(),
            r.entries_seq() == self.state().users_entries(),
            r.wf() == self.wf(),
    {
        self.view.users()
    }

    /// The table hashes folded into the ledger-wide state hash: the single
    /// root of the user table. The order and length of this sequence are
    /// part of the commitment contract.
    pub fn state_hash(&self) -> (r: Vec<crate::crypto::Hash>)
        ensures
            r@.len() == 1,
            r@[0]@ == self.state().users_root(),
            r@[0].wf(),
    {
        let root = self.view.users().merkle_root();
        let mut r: Vec<crate::crypto::Hash> = Vec::new();
        r.push(root);
        r
    }

    /// Inserts or wholesale-replaces a record under its own identifier.
    pub fn put_user(&mut self, user: User)
        requires
            old(self).wf(),
        ensures
            final(self).wf(),
            final(self).state().users_map() =~= old(self).state().users_map().insert(
                user@.public_key,
                user@,
            ),
            final(self).state().time_spec() == old(self).state().time_spec(),
    {
        self.view.put_user(user);
    }
}

/// The host's committed ledger: hands out point-in-time snapshots and
/// mutable forks, and merges a fork atomically. A snapshot or fork is an
/// independent value, so a reader never observes writes from a fork that has
/// not been merged.
pub struct Ledger {
    committed: StateView,
}

impl Ledger {
    /// The committed state.
    pub closed spec fn committed_spec(&self) -> StateView {
        self.committed
    }

    pub open spec fn wf(&self) -> bool {
        self.committed_spec().wf()
    }

    /// A fresh ledger holding the empty state.
    pub fn new() -> (r: Ledger)
        ensures
            r.wf(),
            r.committed_spec().users_map() =~= Map::<PublicKey, UserView>::empty(),
            r.committed_spec().time_spec() is None,
    {
        Ledger { committed: StateView::new() }
    }

    /// A read-only, point-in-time copy of the committed state.
    pub fn snapshot(&self) -> (r: StateView)
        ensures
            r.users_map() =~= self.committed_spec().users_map(),
            r.users_entries() =~= self.committed_spec().users_entries(),
            r.time_spec() == self.committed_spec().time_spec(),
            r.wf() == self.wf(),
    {
        self.committed.duplicate()
    }

    /// A mutable working copy for applying one block's transactions.
    pub fn fork(&self) -> (r: StateView)
        ensures
            r.users_map() =~= self.committed_spec().users_map(),
            r.users_entries() =~= self.committed_spec().users_entries(),
            r.time_spec() == self.committed_spec().time_spec(),
            r.wf() == self.wf(),
    {
        self.committed.duplicate()
    }

    /// Replaces the committed state with the fork, atomically and whole.
    pub fn merge(&mut self, fork: StateView)
        ensures
            final(self).committed_spec() == fork,
    {
        self.committed = fork;
    }

    /// Records the consensus-agreed timestamp the time oracle produced.
    /// (The oracle is an external collaborator; this is its one write.)
    pub fn set_consensus_time(&mut self, time: u64)
        ensures
            final(self).committed_spec().users_map() == old(self).committed_spec().users_map(),
            final(self).committed_spec().users_entries()
                == old(self).committed_spec().users_entries(),
            final(self).committed_spec().time_spec() == Some(time),
            final(self).wf() == old(self).wf(),
    {
        let users = self.committed.users().duplicate();
        let next = StateView { users, consensus_time: Some(time) };
        proof {
            assert(next.users_entries() =~= old(self).committed_spec().users_entries());
            assert(next.users_map() =~= old(self).committed_spec().users_map());
        }
        self.committed = next;
    }
}

} // verus!
