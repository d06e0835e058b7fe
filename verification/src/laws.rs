//! General properties of the registry, proved once and for all inputs. Each
//! law is stated over the mathematical models that the executable functions'
//! contracts speak of, so it composes with those contracts directly.

use vstd::prelude::*;

use crate::data_layout::{PublicKey, UserView};
use crate::transactions::{adjusted_user, issued_user, register_outcome, ErrorKind};
use crate::ISSUE_AMOUNT;

verus! {

/// Registering a fresh identifier under an available oracle fact succeeds
/// and adds exactly one record: the issued record, carrying the given name
/// and the issue amount as its balance. Every other key's presence and
/// record are untouched. [`crate::transactions::CreateUser::execute`]'s
/// contract says the fork's dictionary and the result follow
/// [`register_outcome`]; this is what that outcome is on a fresh key.
pub proof fn lemma_registration(
    m: Map<PublicKey, UserView>,
    t: Option<u64>,
    key: PublicKey,
    name: Seq<char>,
)
    requires
        t is Some,
        !m.contains_key(key),
    ensures
        ({
            let (m2, err) = register_outcome(m, t, key, name);
            &&& err is None
            &&& m2.contains_key(key)
            &&& m2[key] == issued_user(key, name)
            &&& m2[key].public_key == key
            &&& m2[key].name == name
            &&& m2[key].balance == ISSUE_AMOUNT
            &&& forall|k: PublicKey| k != key ==> (m2.contains_key(k) <==> m.contains_key(k))
            &&& forall|k: PublicKey| m.contains_key(k) && k != key ==> m2[k] == m[k]
        }),
{
}

/// Registering the same identifier twice: the first execution adds the
/// record, the second is rejected as `UserAlreadyRegistered` and leaves the
/// dictionary exactly as the first left it. Since
/// [`crate::transactions::CreateUser::execute`] additionally leaves a
/// rejected fork's whole value untouched, the store — and with it the root
/// hash — is unchanged by the second attempt.
pub proof fn lemma_second_registration_rejected(
    m: Map<PublicKey, UserView>,
    t: Option<u64>,
    key: PublicKey,
    name: Seq<char>,
    name2: Seq<char>,
)
    requires
        t is Some,
        !m.contains_key(key),
    ensures
        ({
            let (m1, err1) = register_outcome(m, t, key, name);
            let (m2, err2) = register_outcome(m1, t, key, name2);
            &&& err1 is None
            &&& err2 == Some(ErrorKind::UserAlreadyRegistered)
            &&& m2 == m1
        }),
{
}

/// Increasing an existing user's balance by `delta` and then decreasing it
/// by the same `delta` restores the dictionary exactly: the balance returns
/// to its old value and no other field or record moves. The two steps are
/// the dictionary updates that
/// [`crate::schema::ExoneumCoreSchema::increase_user_balance`] and
/// [`crate::schema::ExoneumCoreSchema::decrease_user_balance`] perform on
/// success. The sum must fit the balance's unsigned range for the first
/// step to succeed.
pub proof fn lemma_balance_round_trip(m: Map<PublicKey, UserView>, key: PublicKey, delta: u64)
    requires
        m.contains_key(key),
        delta <= m[key].balance,
        m[key].balance + delta <= u64::MAX,
    ensures
        ({
            let up = adjusted_user(m[key], (m[key].balance + delta) as u64);
            let m1 = m.insert(key, up);
            let m2 = m1.insert(key, adjusted_user(m1[key], (m1[key].balance - delta) as u64));
            m2 =~= m
        }),
{
    let up = adjusted_user(m[key], (m[key].balance + delta) as u64);
    let m1 = m.insert(key, up);
    let down = adjusted_user(m1[key], (m1[key].balance - delta) as u64);
    assert(down == m[key]);
}

} // verus!
