//! The service's public API surface: read-only snapshot queries and the
//! transaction-submission endpoint. Each query reads a fresh point-in-time
//! snapshot, so it never observes writes from a fork that has not been
//! merged. Submission is fire-and-forget: the endpoint parses and hashes the
//! body and hands the parsed transaction to the host's asynchronous
//! channel; the returned hash implies nothing about execution or commitment.

use vstd::prelude::*;

use crate::crypto::{digest_of, sha256_digest};
use crate::data_layout::{PublicKey, User};
use crate::schema::{ExoneumCoreSchema, Ledger};
use crate::transactions::{parse_spec, parse_transaction, CreateUser};

verus! {

/// API-tier errors: local to the serving replica, never part of ledger
/// state.
#[derive(Clone, Copy, PartialEq, Eq, Structural, Debug)]
pub enum ApiError {
    /// The request body is empty or does not parse as a transaction.
    BadRequest,
}

/// Handler state for the service's public API.
pub struct ExoneumCoreApi;

impl ExoneumCoreApi {
    /// `GET /v1/user/{public_key}`: the committed record under the key, or
    /// a not-found signal.
    pub fn get_user(&self, ledger: &Ledger, public_key: &PublicKey) -> (r: Option<User>)
        requires
            ledger.wf(),
        ensures
            match r {
                Some(u) => ledger.committed_spec().users_map().contains_key(*public_key) && u@
                    == ledger.committed_spec().users_map()[*public_key],
                None => !ledger.committed_spec().users_map().contains_key(*public_key),
            },
    {
        let snapshot = ledger.snapshot();
        let schema = ExoneumCoreSchema::new(snapshot);
        let r = schema.users().get(public_key);
        r
    }

    /// `GET /v1/users`: all committed records, in the store's key order.
    pub fn get_users(&self, ledger: &Ledger) -> (r: Vec<User>)
        ensures
            r@.map_values(|u: User| u@) == ledger.committed_spec().users_entries(),
    {
        let snapshot = ledger.snapshot();
        let schema = ExoneumCoreSchema::new(snapshot);
        let users = schema.users().values();
        users
    }

    /// `POST /v1/transaction`: parses the body; a body that does not parse
    /// is a bad request. On success returns the content hash of the raw
    /// bytes together with the parsed transaction for the host's submission
    /// channel.
    pub fn post_transaction(&self, body: &Vec<u8>) -> (r: Result<
        (crate::crypto::Hash, CreateUser),
        ApiError,
    >)
        ensures
            match r {
                Ok((h, tx)) => parse_spec(body@) == Some(tx@) && tx.wf() && h@ == digest_of(
                    body@,
                ) && h.wf(),
                Err(e) => parse_spec(body@) is None && e == ApiError::BadRequest,
            },
    {
        match parse_transaction(body) {
            Some(tx) => {
                let tx_hash = sha256_digest(body);
                Ok((tx_hash, tx))
            },
            None => Err(ApiError::BadRequest),
        }
    }
}

} // verus!
