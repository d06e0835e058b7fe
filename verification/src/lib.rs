//! A replicated ledger service that keeps a registry of users and balances
//! inside a deterministic state machine. Every replica derives the same state
//! from the same sequence of signed transactions, and the whole registry is
//! summarised by a single root hash that the host folds into the ledger-wide
//! state commitment.

use vstd::prelude::*;

pub mod api;
pub mod crypto;
pub mod data_layout;
pub mod laws;
pub mod schema;
pub mod store;
pub mod transactions;

use crate::schema::StateView;
use crate::transactions::{current_time, parse_transaction, parse_spec, CreateUser};

verus! {

/// Unique service identifier carried by every transaction of this service.
pub const CORE_SERVICE_ID: u16 = 9999;

/// Unique service name used in API paths and configuration.
pub const CORE_SERVICE_NAME: &'static str = "exoneumcore";

/// Sum issued to a user at registration.
pub const ISSUE_AMOUNT: u64 = 100;

/// Timeout (seconds) before a user may issue funds again. No transaction
/// kind currently consumes this constant; the triggering schedule is an
/// unresolved feature gap.
pub const ISSUE_TIMEOUT: i64 = 60;

/// The ledger service: the deterministic state-transition logic the host
/// drives, block by block, against its forks and snapshots.
#[derive(Debug)]
pub struct ExoneumCoreService;

/// Builds the service for the host's service registry.
#[derive(Debug)]
pub struct ExoneumCoreServiceFactory;

impl ExoneumCoreServiceFactory {
    pub fn make_service(&mut self) -> ExoneumCoreService {
        ExoneumCoreService
    }
}

impl ExoneumCoreService {
    /// The stable name under which the service's table is persisted; part
    /// of the on-disk compatibility contract.
    pub fn service_name(&self) -> (r: &'static str)
        ensures
            r@ == "exoneum_core"@,
    {
        "exoneum_core"
    }

    /// The service identifier carried by this service's transactions.
    pub fn service_id(&self) -> (r: u16)
        ensures
            r == CORE_SERVICE_ID,
    {
        CORE_SERVICE_ID
    }

    /// Deserializes a raw wire transaction, exactly as
    /// [`crate::transactions::parse_spec`] states.
    pub fn tx_from_raw(&self, raw: &Vec<u8>) -> (r: Option<CreateUser>)
        ensures
            match r {
                Some(tx) => parse_spec(raw@) == Some(tx@) && tx.wf(),
                None => parse_spec(raw@) is None,
            },
    {
        parse_transaction(raw)
    }

    /// The table hashes this service folds into the ledger-wide state hash:
    /// the single root of the user table. Length and order of the sequence
    /// are part of the commitment contract.
    pub fn state_hash(&self, snapshot: &StateView) -> (r: Vec<crate::crypto::Hash>)
        ensures
            r@.len() == 1,
            r@[0]@ == snapshot.users_root(),
            r@[0].wf(),
    {
        let root = snapshot.users().merkle_root();
        let mut r: Vec<crate::crypto::Hash> = Vec::new();
        r.push(root);
        r
    }

    /// Invoked after each block commit: observes the oracle's committed
    /// timestamp, if any. No scheduled action consumes it yet (the
    /// issue-timeout schedule is an unresolved feature gap), so an absent
    /// fact is an explicit no-op, never an abort.
    pub fn handle_commit(&self, ctx: &StateView) -> (r: Option<u64>)
        ensures
            r == ctx.time_spec(),
    {
        current_time(ctx)
    }
}

} // verus!
