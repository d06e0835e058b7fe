//! The transaction kinds of the service, their wire form, and the
//! verify/execute protocol that applies them to a fork, together with the
//! stable taxonomy of execution-tier rejection reasons.

use vstd::prelude::*;
use vstd::bytes::*;
use vstd::string::*;
use vstd::utf8::{decode_utf8, encode_utf8, valid_utf8};

use crate::crypto::sig_valid;
use crate::data_layout::{PublicKey, User, UserView, PUBLIC_KEY_LENGTH};
use crate::schema::{ExoneumCoreSchema, StateView};
use crate::{CORE_SERVICE_ID, ISSUE_AMOUNT};

verus! {

/// Message-type identifier of [`CreateUser`] within this service.
pub const CREATE_USER_MESSAGE_ID: u16 = 0;

/// Number of bytes in a signature.
pub const SIGNATURE_LENGTH: usize = 64;

/// Least length of a well-formed wire message: the four header bytes, the
/// identifier, an empty name and the signature.
pub const MIN_MESSAGE_LENGTH: usize = 100;

/// Execution-tier rejection reasons. The numeric code of each variant (see
/// [`ErrorKind::as_code`]) is embedded in committed execution receipts and is
/// permanent: the taxonomy is append-only, codes are never renumbered or
/// reused.
#[derive(Clone, Copy, PartialEq, Eq, Structural, Debug)]
pub enum ErrorKind {
    EarlyBreeding,
    EarlyIssue,
    InsufficientFunds,
    AccessViolation,
    SelfBreeding,
    UserAlreadyRegistered,
    UserIsNotRegistered,
    OwlNotFound,
    OwlNotOwned,
    OwlAlreadyAuctioned,
    AuctionNotFound,
    AuctionClosed,
    BidTooLow,
    UnauthorizedTransaction,
    NoSelfBidding,
    TimeOracleNotReady,
}

impl ErrorKind {
    /// The stable numeric code of each rejection reason.
    pub open spec fn code_spec(&self) -> u8 {
        match self {
            ErrorKind::EarlyBreeding => 1,
            ErrorKind::EarlyIssue => 2,
            ErrorKind::InsufficientFunds => 3,
            ErrorKind::AccessViolation => 4,
            ErrorKind::SelfBreeding => 5,
            ErrorKind::UserAlreadyRegistered => 6,
            ErrorKind::UserIsNotRegistered => 7,
            ErrorKind::OwlNotFound => 8,
            ErrorKind::OwlNotOwned => 9,
            ErrorKind::OwlAlreadyAuctioned => 10,
            ErrorKind::AuctionNotFound => 11,
            ErrorKind::AuctionClosed => 12,
            ErrorKind::BidTooLow => 13,
            ErrorKind::UnauthorizedTransaction => 14,
            ErrorKind::NoSelfBidding => 15,
            ErrorKind::TimeOracleNotReady => 16,
        }
    }

    /// Converts the rejection reason to its raw code.
    pub fn as_code(&self) -> (r: u8)
        ensures
            r == self.code_spec(),
    {
        match self {
            ErrorKind::EarlyBreeding => 1,
            ErrorKind::EarlyIssue => 2,
            ErrorKind::InsufficientFunds => 3,
            ErrorKind::AccessViolation => 4,
            ErrorKind::SelfBreeding => 5,
            ErrorKind::UserAlreadyRegistered => 6,
            ErrorKind::UserIsNotRegistered => 7,
            ErrorKind::OwlNotFound => 8,
            ErrorKind::OwlNotOwned => 9,
            ErrorKind::OwlAlreadyAuctioned => 10,
            ErrorKind::AuctionNotFound => 11,
            ErrorKind::AuctionClosed => 12,
            ErrorKind::BidTooLow => 13,
            ErrorKind::UnauthorizedTransaction => 14,
            ErrorKind::NoSelfBidding => 15,
            ErrorKind::TimeOracleNotReady => 16,
        }
    }

    /// The display text of each rejection reason.
    pub open spec fn message_spec(&self) -> Seq<char> {
        match self {
            ErrorKind::EarlyBreeding => "Too early for breeding."@,
            ErrorKind::EarlyIssue => "Too early for balance refill."@,
            ErrorKind::InsufficientFunds => "Insufficient funds."@,
            ErrorKind::AccessViolation => "Not your property."@,
            ErrorKind::SelfBreeding => "You need two different owls."@,
            ErrorKind::UserAlreadyRegistered => "User is already registered"@,
            ErrorKind::UserIsNotRegistered => "Participant is not registered"@,
            ErrorKind::OwlNotFound => "Owl does not exist"@,
            ErrorKind::OwlNotOwned => "You do not own of the item"@,
            ErrorKind::OwlAlreadyAuctioned => "Owl is already auctioned"@,
            ErrorKind::AuctionNotFound => "Auction does not exist"@,
            ErrorKind::AuctionClosed => "Auction is closed"@,
            ErrorKind::BidTooLow => "Bid is below the current highest bid"@,
            ErrorKind::UnauthorizedTransaction => "Transaction is not authorized."@,
            ErrorKind::NoSelfBidding => "You may not bid on your own item."@,
            ErrorKind::TimeOracleNotReady => "Time oracle has produced no timestamp."@,
        }
    }

    /// The human-readable text of the rejection reason.
    pub fn description(&self) -> (r: String)
        ensures
            r@ == self.message_spec(),
    {
        match self {
            ErrorKind::EarlyBreeding => "Too early for breeding.".to_owned(),
            ErrorKind::EarlyIssue => "Too early for balance refill.".to_owned(),
            ErrorKind::InsufficientFunds => "Insufficient funds.".to_owned(),
            ErrorKind::AccessViolation => "Not your property.".to_owned(),
            ErrorKind::SelfBreeding => "You need two different owls.".to_owned(),
            ErrorKind::UserAlreadyRegistered => "User is already registered".to_owned(),
            ErrorKind::UserIsNotRegistered => "Participant is not registered".to_owned(),
            ErrorKind::OwlNotFound => "Owl does not exist".to_owned(),
            ErrorKind::OwlNotOwned => "You do not own of the item".to_owned(),
            ErrorKind::OwlAlreadyAuctioned => "Owl is already auctioned".to_owned(),
            ErrorKind::AuctionNotFound => "Auction does not exist".to_owned(),
            ErrorKind::AuctionClosed => "Auction is closed".to_owned(),
            ErrorKind::BidTooLow => "Bid is below the current highest bid".to_owned(),
            ErrorKind::UnauthorizedTransaction => "Transaction is not authorized.".to_owned(),
            ErrorKind::NoSelfBidding => "You may not bid on your own item.".to_owned(),
            ErrorKind::TimeOracleNotReady => "Time oracle has produced no timestamp.".to_owned(),
        }
    }

    /// The execution receipt entry for this rejection reason.
    pub fn into_execution_error(self) -> (r: ExecutionError)
        ensures
            r@.code == self.code_spec(),
            r@.description == self.message_spec(),
    {
        ExecutionError { code: self.as_code(), description: self.description() }
    }
}

/// Mathematical model of an [`ExecutionError`].
pub struct ExecutionErrorView {
    pub code: u8,
    pub description: Seq<char>,
}

/// A deterministic execution-tier rejection, recorded in the transaction's
/// committed receipt: the stable numeric code and its display text.
pub struct ExecutionError {
    code: u8,
    description: String,
}

impl View for ExecutionError {
    type V = ExecutionErrorView;

    closed spec fn view(&self) -> ExecutionErrorView {
        ExecutionErrorView { code: self.code, description: self.description@ }
    }
}

impl ExecutionError {
    /// A receipt entry with an explicit code and text.
    pub fn with_description(code: u8, description: String) -> (r: ExecutionError)
        ensures
            r@.code == code,
            r@.description == description@,
    {
        ExecutionError { code, description }
    }

    pub fn code(&self) -> (r: u8)
        ensures
            r == self@.code,
    {
        self.code
    }

    pub fn description(&self) -> (r: &String)
        ensures
            r@ == self@.description,
    {
        &self.description
    }
}

/// Outcome of executing one transaction against a fork.
pub type ExecutionResult = Result<(), ExecutionError>;

/// Mathematical model of a [`CreateUser`] transaction.
pub struct CreateUserView {
    pub public_key: PublicKey,
    pub name: Seq<char>,
    pub signature: Seq<u8>,
}

/// Transaction to create a new user: the declared identity, the display
/// name, and a signature over the declared fields verifiable against the
/// identity itself.
pub struct CreateUser {
    public_key: PublicKey,
    name: String,
    signature: Vec<u8>,
}

impl View for CreateUser {
    type V = CreateUserView;

    closed spec fn view(&self) -> CreateUserView {
        CreateUserView {
            public_key: self.public_key,
            name: self.name@,
            signature: self.signature@,
        }
    }
}

/// The signed region of a wire message: service identifier, message-type
/// identifier, public identifier and name bytes, in that order.
pub open spec fn body_bytes_spec(key: PublicKey, name: Seq<char>) -> Seq<u8> {
    spec_u16_to_le_bytes(CORE_SERVICE_ID) + spec_u16_to_le_bytes(CREATE_USER_MESSAGE_ID)
        + key.bytes_spec() + encode_utf8(name)
}

/// A whole wire message: the signed region followed by the signature.
pub open spec fn message_bytes_spec(v: CreateUserView) -> Seq<u8> {
    body_bytes_spec(v.public_key, v.name) + v.signature
}

/// What raw bytes parse to: the transaction they encode, or nothing when the
/// length, the header or the name encoding is wrong.
pub open spec fn parse_spec(b: Seq<u8>) -> Option<CreateUserView> {
    if b.len() >= MIN_MESSAGE_LENGTH
        && spec_u16_from_le_bytes(b.subrange(0, 2)) == CORE_SERVICE_ID
        && spec_u16_from_le_bytes(b.subrange(2, 4)) == CREATE_USER_MESSAGE_ID
        && valid_utf8(b.subrange(36, b.len() - 64)) {
        Some(
            CreateUserView {
                public_key: PublicKey::from_bytes_spec(b.subrange(4, 36)),
                name: decode_utf8(b.subrange(36, b.len() - 64)),
                signature: b.subrange(b.len() - 64, b.len() as int),
            },
        )
    } else {
        None
    }
}

/// The record a successful registration of `key` under `name` adds.
pub open spec fn issued_user(key: PublicKey, name: Seq<char>) -> UserView {
    UserView { public_key: key, name, balance: ISSUE_AMOUNT, user_address: 0 }
}

/// The outcome of executing a registration of `key` under `name` against a
/// fork whose dictionary is `m` and whose oracle fact is `t`: the resulting
/// dictionary, and the rejection reason if any. [`CreateUser::execute`]'s
/// contract follows this function exactly.
pub open spec fn register_outcome(
    m: Map<PublicKey, UserView>,
    t: Option<u64>,
    key: PublicKey,
    name: Seq<char>,
) -> (Map<PublicKey, UserView>, Option<ErrorKind>) {
    if t is None {
        (m, Some(ErrorKind::TimeOracleNotReady))
    } else if m.contains_key(key) {
        (m, Some(ErrorKind::UserAlreadyRegistered))
    } else {
        (m.insert(key, issued_user(key, name)), None)
    }
}

/// Relies on `String::from_utf8`: returns the decoded string exactly when
/// the bytes are valid UTF-8, and the decoding is the inverse of the
/// encoding `str::as_bytes` exposes.
#[verifier::external_body]
fn vec_to_string(bytes: Vec<u8>) -> (r: Option<String>)
    ensures
        match r {
            Some(s) => valid_utf8(bytes@) && s@ == decode_utf8(bytes@),
            None => !valid_utf8(bytes@),
        },
{
    String::from_utf8(bytes).ok()
}

impl CreateUser {
    /// Well-formed transactions carry a full-length signature.
    pub open spec fn wf(&self) -> bool {
        self@.signature.len() == SIGNATURE_LENGTH
    }

    pub fn new(public_key: PublicKey, name: String, signature: Vec<u8>) -> (r: CreateUser)
        requires
            signature@.len() == SIGNATURE_LENGTH,
        ensures
            r@ == (CreateUserView { public_key, name: name@, signature: signature@ }),
            r.wf(),
    {
        CreateUser { public_key, name, signature }
    }

    pub fn public_key(&self) -> (r: PublicKey)
        ensures
            r == self@.public_key,
    {
        self.public_key
    }

    pub fn name(&self) -> (r: &String)
        ensures
            r@ == self@.name,
    {
        &self.name
    }

    pub fn signature(&self) -> (r: &Vec<u8>)
        ensures
            r@ == self@.signature,
    {
        &self.signature
    }

    /// The signed region of this transaction's wire form.
    pub fn body_bytes(&self) -> (r: Vec<u8>)
        ensures
            r@ == body_bytes_spec(self@.public_key, self@.name),
    {
        let mut r = u16_to_le_bytes(crate::CORE_SERVICE_ID);
        let mut mid = u16_to_le_bytes(CREATE_USER_MESSAGE_ID);
        r.append(&mut mid);
        let mut kb = self.public_key.to_bytes();
        r.append(&mut kb);
        let mut nb = vstd::slice::slice_to_vec(self.name.as_str().as_bytes());
        r.append(&mut nb);
        assert(r@ =~= body_bytes_spec(self@.public_key, self@.name));
        r
    }

    /// The whole wire form: signed region plus signature.
    pub fn to_bytes(&self) -> (r: Vec<u8>)
        ensures
            r@ == message_bytes_spec(self@),
    {
        let mut r = self.body_bytes();
        let mut sig = crate::crypto::clone_bytes(&self.signature);
        r.append(&mut sig);
        assert(r@ =~= message_bytes_spec(self@));
        r
    }

    /// Stateless admission check: whether the signature over the declared
    /// fields verifies against the declared identity. A transaction failing
    /// this check is discarded before it can reach any replica's state.
    pub fn verify(&self) -> (r: bool)
        ensures
            r == sig_valid(
                self@.public_key.bytes_spec(),
                body_bytes_spec(self@.public_key, self@.name),
                self@.signature,
            ),
    {
        let pk_bytes = self.public_key.to_bytes();
        let body = self.body_bytes();
        crate::crypto::ed25519_verify(&pk_bytes, &body, &self.signature)
    }

    /// Deterministic state transition, run once per transaction per replica
    /// against that block's fork. All-or-nothing: on success exactly the new
    /// record is put; on any rejection the fork is left exactly as it was.
    /// Rejections: no oracle timestamp yet, or the identifier is already
    /// registered.
    pub fn execute(&self, fork: &mut StateView) -> (r: ExecutionResult)
        requires
            old(fork).wf(),
        ensures
            final(fork).wf(),
            final(fork).users_map() =~= register_outcome(
                old(fork).users_map(),
                old(fork).time_spec(),
                self@.public_key,
                self@.name,
            ).0,
            final(fork).time_spec() == old(fork).time_spec(),
            match r {
                Ok(()) => register_outcome(
                    old(fork).users_map(),
                    old(fork).time_spec(),
                    self@.public_key,
                    self@.name,
                ).1 is None,
                Err(e) => ({
                    let err = register_outcome(
                        old(fork).users_map(),
                        old(fork).time_spec(),
                        self@.public_key,
                        self@.name,
                    ).1;
                    &&& *final(fork) == *old(fork)
                    &&& err matches Some(kind) && e@.code == kind.code_spec()
                }),
            },
    {
        // Read the committed oracle fact; a missing fact is an explicit
        // execution error, never an abort.
        if current_time(fork).is_none() {
            return Err(ErrorKind::TimeOracleNotReady.into_execution_error());
        }
        // Reject if a user with the same public identifier already exists.
        if fork.users().get(&self.public_key).is_some() {
            return Err(ErrorKind::UserAlreadyRegistered.into_execution_error());
        }
        let user = User::new(self.public_key, self.name.clone(), crate::ISSUE_AMOUNT);
        fork.put_user(user);
        Ok(())
    }
}

/// Parses raw wire bytes into a transaction, exactly as [`parse_spec`]
/// states: the header must name this service and the [`CreateUser`] message
/// type, and the name bytes must be valid UTF-8.
pub fn parse_transaction(raw: &Vec<u8>) -> (r: Option<CreateUser>)
    ensures
        match r {
            Some(tx) => parse_spec(raw@) == Some(tx@) && tx.wf(),
            None => parse_spec(raw@) is None,
        },
{
    let n = raw.len();
    if n < MIN_MESSAGE_LENGTH {
        return None;
    }
    let service = u16_from_le_bytes(vstd::slice::slice_subrange(raw.as_slice(), 0, 2));
    if service != crate::CORE_SERVICE_ID {
        return None;
    }
    let message_id = u16_from_le_bytes(vstd::slice::slice_subrange(raw.as_slice(), 2, 4));
    if message_id != CREATE_USER_MESSAGE_ID {
        return None;
    }
    let key = PublicKey::from_bytes(vstd::slice::slice_subrange(raw.as_slice(), 4, 36));
    let name_bytes = vstd::slice::slice_to_vec(
        vstd::slice::slice_subrange(raw.as_slice(), 36, n - 64),
    );
    let name = match vec_to_string(name_bytes) {
        Some(s) => s,
        None => {
            return None;
        },
    };
    let signature = vstd::slice::slice_to_vec(vstd::slice::slice_subrange(raw.as_slice(), n - 64, n));
    Some(CreateUser { public_key: key, name, signature })
}

/// Round trip: a well-formed transaction's wire form parses back to the
/// transaction itself.
pub proof fn lemma_wire_round_trip(v: CreateUserView)
    requires
        v.signature.len() == SIGNATURE_LENGTH,
    ensures
        parse_spec(message_bytes_spec(v)) == Some(v),
{
    broadcast use vstd::utf8::encode_utf8_valid_utf8;
    broadcast use vstd::utf8::encode_utf8_decode_utf8;

    let b = message_bytes_spec(v);
    let nb = encode_utf8(v.name);
    lemma_auto_spec_u16_to_from_le_bytes();
    lemma_auto_spec_u64_to_from_le_bytes();
    assert(b.len() == 4 + PUBLIC_KEY_LENGTH + nb.len() + SIGNATURE_LENGTH);
    assert(b.subrange(0, 2) =~= spec_u16_to_le_bytes(CORE_SERVICE_ID));
    assert(b.subrange(2, 4) =~= spec_u16_to_le_bytes(CREATE_USER_MESSAGE_ID));
    assert(b.subrange(4, 36) =~= v.public_key.bytes_spec());
    assert(b.subrange(36, b.len() - 64) =~= nb);
    assert(b.subrange(b.len() - 64, b.len() as int) =~= v.signature);
    v.public_key.lemma_bytes_round_trip();
}

/// Helper to read the consensus-agreed current time from the time oracle's
/// committed fact in the given view.
pub fn current_time(snapshot: &StateView) -> (r: Option<u64>)
    ensures
        r == snapshot.time_spec(),
{
    snapshot.time()
}

impl ExoneumCoreSchema {
    /// Increases a user's balance by replacing the record wholesale. Fails
    /// with `UserIsNotRegistered` if the identifier is absent; the sum is
    /// proved not to overflow under the stated bound.
    pub fn increase_user_balance(&mut self, user_id: &PublicKey, balance: u64) -> (r:
        ExecutionResult)
        requires
            old(self).wf(),
            old(self).state().users_map().contains_key(*user_id)
                ==> old(self).state().users_map()[*user_id].balance + balance <= u64::MAX,
        ensures
            final(self).wf(),
            match r {
                Ok(()) => ({
                    let m = old(self).state().users_map();
                    &&& m.contains_key(*user_id)
                    &&& final(self).state().users_map() =~= m.insert(
                        *user_id,
                        adjusted_user(m[*user_id], (m[*user_id].balance + balance) as u64),
                    )
                    &&& final(self).state().time_spec() == old(self).state().time_spec()
                }),
                Err(e) => {
                    &&& !old(self).state().users_map().contains_key(*user_id)
                    &&& *final(self) == *old(self)
                    &&& e@.code == ErrorKind::UserIsNotRegistered.code_spec()
                },
            },
    {
        let user = match self.users().get(user_id) {
            Some(u) => u,
            None => {
                return Err(ErrorKind::UserIsNotRegistered.into_execution_error());
            },
        };
        let updated = user.with_balance(user.balance() + balance);
        proof {
            assert(updated@.public_key == *user_id);
        }
        self.put_user(updated);
        Ok(())
    }

    /// Decreases a user's balance by replacing the record wholesale. Fails
    /// with `UserIsNotRegistered` if the identifier is absent and with
    /// `InsufficientFunds` if the amount exceeds the balance; the
    /// subtraction is checked and never wraps.
    pub fn decrease_user_balance(&mut self, user_id: &PublicKey, balance: u64) -> (r:
        ExecutionResult)
        requires
            old(self).wf(),
        ensures
            final(self).wf(),
            match r {
                Ok(()) => ({
                    let m = old(self).state().users_map();
                    &&& m.contains_key(*user_id)
                    &&& balance <= m[*user_id].balance
                    &&& final(self).state().users_map() =~= m.insert(
                        *user_id,
                        adjusted_user(m[*user_id], (m[*user_id].balance - balance) as u64),
                    )
                    &&& final(self).state().time_spec() == old(self).state().time_spec()
                }),
                Err(e) => ({
                    let m = old(self).state().users_map();
                    &&& *final(self) == *old(self)
                    &&& (if !m.contains_key(*user_id) {
                        e@.code == ErrorKind::UserIsNotRegistered.code_spec()
                    } else {
                        balance > m[*user_id].balance && e@.code
                            == ErrorKind::InsufficientFunds.code_spec()
                    })
                }),
            },
    {
        let user = match self.users().get(user_id) {
            Some(u) => u,
            None => {
                return Err(ErrorKind::UserIsNotRegistered.into_execution_error());
            },
        };
        if balance > user.balance() {
            return Err(ErrorKind::InsufficientFunds.into_execution_error());
        }
        let updated = user.with_balance(user.balance() - balance);
        proof {
            assert(updated@.public_key == *user_id);
        }
        self.put_user(updated);
        Ok(())
    }
}

/// The record a balance adjustment replaces an old record with: the same
/// identity, name and address, carrying the new balance.
pub open spec fn adjusted_user(u: UserView, balance: u64) -> UserView {
    UserView { public_key: u.public_key, name: u.name, balance, user_address: u.user_address }
}

} // verus!
