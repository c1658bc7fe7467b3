//! Token redemption: a confirmation link carries an opaque token; redeeming
//! it flips the owning subscriber to `Confirmed`. Unknown tokens are rejected
//! as unauthorized, and redeeming the same token twice succeeds twice.

use vstd::prelude::*;

use crate::store::{
    confirm_all, has_subscriber, resolve_token_spec, Store, SubscriberRecord, SubscriberStatus,
};

verus! {

/// The query parameters of a confirmation request.
pub struct Parameters {
    pub subscription_token: String,
}

/// Resolves a token to the subscriber id of the first row carrying it.
pub fn get_subscriber_id_from_token(store: &Store, subscription_token: &String) -> (r: Option<
    String,
>)
    ensures
        match resolve_token_spec(store.tokens@, subscription_token@) {
            Some(id) => (r matches Some(rid) && rid@ == id),
            None => r is None,
        },
{
    let n = store.tokens.len();
    let mut i: usize = 0;
    proof {
        assert(store.tokens@.skip(0) =~= store.tokens@);
    }
    while i < n
        invariant
            i <= n,
            n == store.tokens@.len(),
            resolve_token_spec(store.tokens@, subscription_token@) == resolve_token_spec(
                store.tokens@.skip(i as int),
                subscription_token@,
            ),
        decreases n - i,
    {
        proof {
            assert(store.tokens@.skip(i as int).drop_first() =~= store.tokens@.skip(i as int + 1));
            assert(store.tokens@.skip(i as int)[0] == store.tokens@[i as int]);
        }
        let t = &store.tokens[i];
        if t.subscription_token.eq(subscription_token) {
            return Some(t.subscriber_id.clone());
        }
        i += 1;
    }
    proof {
        assert(store.tokens@.skip(n as int) =~= Seq::<crate::store::TokenRecord>::empty());
    }
    None
}

/// Sets the subscriber's status to `Confirmed`, unconditionally: confirming
/// an already confirmed subscriber changes nothing. No other row, and no
/// other column, moves.
pub fn confirm_subscriber(store: &mut Store, subscriber_id: &String)
    ensures
        final(store).subscribers@ == confirm_all(old(store).subscribers@, subscriber_id@),
        final(store).tokens@ == old(store).tokens@,
        final(store).users@ == old(store).users@,
        old(store).wf() ==> final(store).wf(),
{
    let n = store.subscribers.len();
    let mut i: usize = 0;
    while i < n
        invariant
            i <= n,
            n == store.subscribers@.len(),
            store.subscribers@.len() == old(store).subscribers@.len(),
            store.tokens@ == old(store).tokens@,
            store.users@ == old(store).users@,
            forall|j: int|
                0 <= j < i ==> store.subscribers@[j] == confirm_all(
                    old(store).subscribers@,
                    subscriber_id@,
                )[j],
            forall|j: int| i <= j < n ==> store.subscribers@[j] == old(store).subscribers@[j],
        decreases n - i,
    {
        if store.subscribers[i].id.eq(subscriber_id) {
            let id = store.subscribers[i].id.clone();
            let email = store.subscribers[i].email.clone();
            let name = store.subscribers[i].name.clone();
            let subscribed_at = store.subscribers[i].subscribed_at;
            store.subscribers[i] = SubscriberRecord {
                id,
                email,
                name,
                subscribed_at,
                status: SubscriberStatus::Confirmed,
            };
        }
        i += 1;
    }
    proof {
        assert(store.subscribers@ =~= confirm_all(old(store).subscribers@, subscriber_id@));
        if old(store).wf() {
            assert forall|k: int| 0 <= k < store.tokens@.len() implies has_subscriber(
                store.subscribers@,
                (#[trigger] store.tokens@[k]).subscriber_id@,
            ) by {
                assert(has_subscriber(
                    old(store).subscribers@,
                    old(store).tokens@[k].subscriber_id@,
                ));
                let j = choose|j: int|
                    0 <= j < old(store).subscribers@.len() && (#[trigger] old(
                        store,
                    ).subscribers@[j]).id@ == old(store).tokens@[k].subscriber_id@;
                assert(store.subscribers@[j].id@ == store.tokens@[k].subscriber_id@);
            }
        }
    }
}

/// Handles one confirmation request: an unknown token is rejected as
/// unauthorized (401) with every subscriber state untouched; a known token
/// confirms its subscriber (200). Re-redeeming a token succeeds again.
pub fn confirm(store: &mut Store, parameters: &Parameters) -> (status: u16)
    requires
        old(store).wf(),
    ensures
        final(store).wf(),
        final(store).tokens@ == old(store).tokens@,
        final(store).users@ == old(store).users@,
        match resolve_token_spec(old(store).tokens@, parameters.subscription_token@) {
            None => status == 401 && final(store).subscribers@ == old(store).subscribers@,
            Some(id) => status == 200 && final(store).subscribers@ == confirm_all(
                old(store).subscribers@,
                id,
            ),
        },
{
    match get_subscriber_id_from_token(store, &parameters.subscription_token) {
        Some(subscriber_id) => {
            confirm_subscriber(store, &subscriber_id);
            200
        },
        None => 401,
    }
}

/// Confirming is idempotent: confirming the same subscriber a second time
/// leaves every row exactly as after the first confirmation.
pub proof fn lemma_confirm_idempotent(subs: Seq<SubscriberRecord>, id: Seq<char>)
    ensures
        confirm_all(confirm_all(subs, id), id) == confirm_all(subs, id),
{
    assert(confirm_all(confirm_all(subs, id), id) =~= confirm_all(subs, id));
}

/// A subscriber's status only moves forward: a confirmed row stays confirmed
/// under any further confirmation, and a pending row becomes confirmed only
/// when it is the one being confirmed.
pub proof fn lemma_confirm_monotone(subs: Seq<SubscriberRecord>, id: Seq<char>, i: int)
    requires
        0 <= i < subs.len(),
    ensures
        subs[i].status is Confirmed ==> confirm_all(subs, id)[i].status is Confirmed,
        confirm_all(subs, id)[i].status is Confirmed ==> (subs[i].status is Confirmed || subs[i].id@
            == id),
        confirm_all(subs, id)[i].id@ == subs[i].id@,
        confirm_all(subs, id)[i].email@ == subs[i].email@,
        confirm_all(subs, id)[i].name@ == subs[i].name@,
{
}

} // verus!
