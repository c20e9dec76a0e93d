//! What is found again in the cache.
//!
//! The laws here speak of a cache that answers a query with those objects that it
//! holds and that meet it, in the order in which they were added.

use serde_json::Value;
use vstd::prelude::*;

use crate::create;
use crate::create::{create_returns_the_created_key, create_run, CreateIdentity, CreateReply};
use crate::data::Data;
use crate::error::WarpError;
use crate::identity::{Identifier, Identity, IdentityUpdate, LookupBy, PublicKey};
use crate::lookup::{
    lookup_after, lookup_key, lookup_start, lookup_step, GetIdentity, GetReply, QueryOutcome,
};
use crate::update;
use crate::update::{
    change_of, update_run, update_works_on_one_change, UpdateIdentity, UpdateReply,
};

verus! {

/// Whether an identity is the one that is looked for.
pub open spec fn names(by: LookupBy, identity: Identity) -> bool {
    match by {
        LookupBy::PublicKey(key) => key.bytes@ == identity.public_key.bytes@,
        LookupBy::Username(username) => username@ == identity.username@,
    }
}

/// Whether reading undoes writing, and what an identity is written as meets the
/// queries for its key and for its name.
pub open spec fn faithful(
    write: spec_fn(Identity) -> Result<Value, serde_json::Error>,
    read: spec_fn(Value) -> Result<Identity, WarpError>,
    meets: spec_fn(LookupBy, Value) -> bool,
) -> bool {
    &&& forall|identity: Identity, value: Value|
        #![trigger write(identity), read(value)]
        write(identity) == Ok::<Value, serde_json::Error>(value) ==> {
            &&& read(value) matches Ok(back)
            &&& back.same(identity)
        }
    &&& forall|identity: Identity, value: Value, by: LookupBy|
        #![trigger write(identity), meets(by, value)]
        write(identity) == Ok::<Value, serde_json::Error>(value) && names(by, identity) ==> meets(
            by,
            value,
        )
}

/// What a cache that holds `held` answers to a query.
pub open spec fn answer(
    held: Seq<Data>,
    meets: spec_fn(LookupBy, Value) -> bool,
    by: LookupBy,
) -> Seq<Data> {
    held.filter(|data: Data| meets(by, data.payload.value))
}

/// Whether a lookup that the cache answers with `list` finds `identity` there: it
/// reads the last object, what that is read as is the result, and the store is
/// not asked.
pub open spec fn is_found(
    read: spec_fn(Value) -> Result<Identity, WarpError>,
    id: Identifier,
    list: Vec<Data>,
    identity: Identity,
) -> bool {
    let start = lookup_start(id, true);
    let queried = GetReply::Queried(QueryOutcome::Found(list));
    let decoded = GetReply::Decoded(read(list@.last().payload.value));
    &&& list@.len() > 0
    &&& lookup_step(start, queried) == (GetIdentity::Decode { data: list@.last() })
    &&& lookup_after(start, seq![queried, decoded]) matches GetIdentity::Done(Ok(found))
    &&& found.same(identity)
}

/// The last object of an answer is the last one that the cache holds and that
/// meets the query.
pub proof fn answer_ends_with_the_latest(
    held: Seq<Data>,
    meets: spec_fn(LookupBy, Value) -> bool,
    by: LookupBy,
    n: int,
)
    requires
        0 <= n < held.len(),
        meets(by, held[n].payload.value),
        forall|m: int|
            n < m < held.len() ==> !meets(by, (#[trigger] held[m]).payload.value),
    ensures
        answer(held, meets, by).len() > 0,
        answer(held, meets, by).last() == held[n],
    decreases held.len(),
{
    reveal(Seq::filter);
    let past = held.drop_last();
    if n < past.len() {
        assert(past[n] == held[n]);
        assert forall|m: int| n < m < past.len() implies !meets(
            by,
            (#[trigger] past[m]).payload.value,
        ) by {
            assert(past[m] == held[m]);
        }
        answer_ends_with_the_latest(past, meets, by, n);
        assert(held.last() == held[held.len() - 1]);
    }
}

/// An identity is found by its key, and by its name, where it is what the latest
/// object was written from that meets the query.
pub proof fn latest_identity_is_found(
    write: spec_fn(Identity) -> Result<Value, serde_json::Error>,
    read: spec_fn(Value) -> Result<Identity, WarpError>,
    meets: spec_fn(LookupBy, Value) -> bool,
    held: Seq<Data>,
    n: int,
    identity: Identity,
    id: Identifier,
    by: LookupBy,
    list: Vec<Data>,
)
    requires
        faithful(write, read, meets),
        0 <= n < held.len(),
        write(identity) == Ok::<Value, serde_json::Error>(held[n].payload.value),
        forall|m: int|
            n < m < held.len() ==> !meets(by, (#[trigger] held[m]).payload.value),
        lookup_key(id) == Some(by),
        names(by, identity),
        list@ == answer(held, meets, by),
    ensures
        list@.last() == held[n],
        is_found(read, id, list, identity),
{
    let value = held[n].payload.value;
    assert(meets(by, value));
    assert(read(value) matches Ok(back) && back.same(identity));
    answer_ends_with_the_latest(held, meets, by, n);
    let start = lookup_start(id, true);
    let queried = GetReply::Queried(QueryOutcome::Found(list));
    let decoded = GetReply::Decoded(read(value));
    assert(seq![queried, decoded].drop_last() =~= seq![queried]);
    assert(seq![queried].drop_last() =~= Seq::<GetReply>::empty());
    assert(lookup_after(start, Seq::<GetReply>::empty()) == start);
    assert(lookup_after(start, seq![queried]) == lookup_step(start, queried));
}

/// An identity that was created is found again by the key that the creation
/// returned, through the cache that was told of it, as long as no object that
/// came later meets the query. What is found is the identity as it was created,
/// and the store is not asked.
pub proof fn created_identity_is_found_again(
    write: spec_fn(Identity) -> Result<Value, serde_json::Error>,
    read: spec_fn(Value) -> Result<Identity, WarpError>,
    meets: spec_fn(LookupBy, Value) -> bool,
    before: Seq<Data>,
    replies: Seq<CreateReply>,
    states: Seq<CreateIdentity>,
    public_key: PublicKey,
    later: Seq<Data>,
    id: Identifier,
    asked: PublicKey,
    list: Vec<Data>,
)
    requires
        faithful(write, read, meets),
        create_run(true, replies, states),
        forall|k: int|
            0 <= k < replies.len() && #[trigger] replies[k] is Encoded ==> (states[k]
                matches CreateIdentity::Encode { identity } ==> replies[k] == CreateReply::Encoded(
                write(identity),
            )),
        states.last() == CreateIdentity::Done(Ok(public_key)),
        lookup_key(id) == Some(LookupBy::PublicKey(asked)),
        asked.bytes@ == public_key.bytes@,
        forall|m: int|
            0 <= m < later.len() ==> !meets(
                LookupBy::PublicKey(asked),
                (#[trigger] later[m]).payload.value,
            ),
        list@ == answer(
            create::held_after(before, replies, states, replies.len() as int) + later,
            meets,
            LookupBy::PublicKey(asked),
        ),
    ensures
        exists|created: Identity|
            {
                &&& #[trigger] create::is_entry(
                    replies,
                    states,
                    replies.len() as int,
                    created,
                    list@.last(),
                )
                &&& created.public_key == public_key
                &&& is_found(read, id, list, created)
            },
{
    let end = replies.len() as int;
    create_returns_the_created_key(true, before, replies, states, end);
    let (created, data) = choose|created: Identity, data: Data|
        {
            &&& #[trigger] create::is_entry(replies, states, end, created, data)
            &&& created.public_key == public_key
            &&& create::held_after(before, replies, states, end) == before.push(data)
        };
    let held = before.push(data) + later;
    let n = before.len() as int;
    assert(held[n] == data);
    assert forall|m: int| n < m < held.len() implies !meets(
        LookupBy::PublicKey(asked),
        (#[trigger] held[m]).payload.value,
    ) by {
        assert(held[m] == later[m - n - 1]);
    }
    latest_identity_is_found(
        write,
        read,
        meets,
        held,
        n,
        created,
        id,
        LookupBy::PublicKey(asked),
        list,
    );
}

/// An identity that was changed is found again, as it was changed, by its key and
/// by its new name, through the cache that was told of it, as long as no object
/// that came later meets the query. The cache was told unless it had found
/// nothing by the old name.
pub proof fn changed_identity_is_found_again(
    write: spec_fn(Identity) -> Result<Value, serde_json::Error>,
    read: spec_fn(Value) -> Result<Identity, WarpError>,
    meets: spec_fn(LookupBy, Value) -> bool,
    before: Seq<Data>,
    option: IdentityUpdate,
    replies: Seq<UpdateReply>,
    states: Seq<UpdateIdentity>,
    later: Seq<Data>,
    id: Identifier,
    by: LookupBy,
    list: Vec<Data>,
)
    requires
        faithful(write, read, meets),
        update_run(option, true, replies, states),
        forall|k: int|
            0 <= k < replies.len() && #[trigger] replies[k] is Encoded ==> (states[k]
                matches UpdateIdentity::Encode { identity, .. } ==> replies[k]
                == UpdateReply::Encoded(write(identity))),
        states.last() matches UpdateIdentity::Done(Ok(_)),
        update::held_after(before, replies, states, replies.len() as int) != before,
        lookup_key(id) == Some(by),
        forall|m: int|
            0 <= m < later.len() ==> !meets(by, (#[trigger] later[m]).payload.value),
        list@ == answer(
            update::held_after(before, replies, states, replies.len() as int) + later,
            meets,
            by,
        ),
    ensures
        exists|own: Identity|
            {
                &&& #[trigger] replies.contains(UpdateReply::Identity(Ok(own)))
                &&& names(by, change_of(own, option, true).identity) ==> is_found(
                    read,
                    id,
                    list,
                    change_of(own, option, true).identity,
                )
            },
{
    let end = replies.len() as int;
    update_works_on_one_change(before, option, true, replies, states, end);
    assert(replies.take(end) =~= replies);
    let own = choose|own: Identity|
        update::works_on(before, replies, states, end, own, option, true)
            && #[trigger] replies.take(end).contains(UpdateReply::Identity(Ok(own)));
    let identity = change_of(own, option, true).identity;
    let (entry, data) = choose|entry: Option<Data>, data: Data|
        #[trigger] update::is_entry(replies, states, end, entry, identity, data)
            && update::held_after(before, replies, states, end) == before.push(data);
    let held = before.push(data) + later;
    let n = before.len() as int;
    assert(held[n] == data);
    assert forall|m: int| n < m < held.len() implies !meets(
        by,
        (#[trigger] held[m]).payload.value,
    ) by {
        assert(held[m] == later[m - n - 1]);
    }
    if names(by, identity) {
        latest_identity_is_found(write, read, meets, held, n, identity, id, by, list);
    }
}

} // verus!
