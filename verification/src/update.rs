//! How the own identity is changed.
//!
//! The identity is kept as a pinned piece of content, whose identifier is in the
//! key store. A change unpins the old content, puts and pins the new one, stores
//! its identifier, brings the cache up to date, and lets the identity store know.

use serde_json::Value;
use vstd::prelude::*;

use crate::content_id::{is_cid, Cid};
use crate::course::outcomes_stay;
use crate::data::{is_drawn_id, Data, Payload};
use crate::error::WarpError;
use crate::identity::{fields_given, with_fields, Identity, IdentityUpdate, LookupBy};
use crate::lookup::QueryOutcome;
use crate::module::Module;

verus! {

/// The name under which the key store keeps the identifier of the identity.
pub const IDENT_CID_KEY: &'static str = "ident_cid";

/// How the identity is pinned: by itself, without what it refers to.
pub const PIN_RECURSIVE: bool = false;

/// A change that was accepted.
pub struct Change {
    /// The identity as it is to be.
    pub identity: Identity,
    /// The name that it had.
    pub old_username: String,
    /// Whether there is a cache.
    pub cached: bool,
}

/// A change, by the request that is to be carried out next.
pub enum UpdateIdentity {
    /// Get the own identity.
    OwnIdentity { option: IdentityUpdate, cached: bool },
    /// Get the secret under `IDENT_CID_KEY` from the key store.
    RetrieveCid { change: Change },
    /// Remove the pin of `cid` from the node, as `PIN_RECURSIVE` says.
    RemovePin { cid: Cid, change: Change },
    /// Put the changed identity into the node.
    PutDag { change: Change },
    /// Pin `cid` in the node, as `PIN_RECURSIVE` says.
    InsertPin { cid: Cid, change: Change },
    /// Put the text of `cid` under `IDENT_CID_KEY` into the key store.
    StoreCid { cid: Cid, change: Change },
    /// Query the accounts of the cache for the objects whose field `by.field()`
    /// is what `by` holds.
    QueryCache { by: LookupBy, identity: Identity },
    /// Turn `identity` into a JSON value, which is for `entry` where there is one.
    Encode { entry: Option<Data>, identity: Identity },
    /// Add `data` to the accounts of the cache.
    AddData { data: Data },
    /// Let the identity store know.
    UpdateStore,
    /// Nothing is left to do.
    Done(Result<(), WarpError>),
}

/// The outcome of a request.
pub enum UpdateReply {
    /// The own identity.
    Identity(Result<Identity, WarpError>),
    /// What the key store holds.
    Secret(Result<String, WarpError>),
    /// That something was done.
    Finished(Result<(), WarpError>),
    /// The identifier of what was put.
    Put(Result<Cid, WarpError>),
    /// What the cache answered.
    Queried(QueryOutcome),
    /// What the identity was turned into.
    Encoded(Result<Value, serde_json::Error>),
}

/// The change that `option` makes of the identity `own`.
pub open spec fn change_of(own: Identity, option: IdentityUpdate, cached: bool) -> Change {
    Change { identity: with_fields(own, option), old_username: own.username, cached }
}

/// What follows once the identifier of the old content was read.
pub open spec fn unpinning(change: Change, old_cid: Result<Cid, WarpError>) -> UpdateIdentity {
    match old_cid {
        Ok(cid) => UpdateIdentity::RemovePin { cid, change },
        Err(error) => UpdateIdentity::Done(Err(error)),
    }
}

/// What follows a request and its outcome. An outcome that does not belong to the
/// request changes nothing.
pub open spec fn update_step(
    before: UpdateIdentity,
    reply: UpdateReply,
    after: UpdateIdentity,
) -> bool {
    match (before, reply) {
        (UpdateIdentity::OwnIdentity { option, cached }, UpdateReply::Identity(Ok(own))) => after
            == if fields_given(option) == 1 {
            UpdateIdentity::RetrieveCid { change: change_of(own, option, cached) }
        } else {
            UpdateIdentity::Done(Err(WarpError::CannotUpdateIdentity))
        },
        (UpdateIdentity::OwnIdentity { .. }, UpdateReply::Identity(Err(error))) => after
            == UpdateIdentity::Done(Err(error)),
        (UpdateIdentity::RetrieveCid { change }, UpdateReply::Secret(Ok(text))) => {
            if is_cid(text@) {
                &&& after matches UpdateIdentity::RemovePin { cid, change: same }
                &&& cid@ == text@
                &&& same == change
            } else {
                after matches UpdateIdentity::Done(Err(WarpError::Cid(_)))
            }
        },
        (UpdateIdentity::RetrieveCid { change }, UpdateReply::Secret(Err(_))) => after == (
        UpdateIdentity::PutDag { change }),
        (UpdateIdentity::RemovePin { change, .. }, UpdateReply::Finished(Ok(_))) => after == (
        UpdateIdentity::PutDag { change }),
        (UpdateIdentity::RemovePin { .. }, UpdateReply::Finished(Err(error))) => after
            == UpdateIdentity::Done(Err(error)),
        (UpdateIdentity::PutDag { change }, UpdateReply::Put(Ok(cid))) => after == (
        UpdateIdentity::InsertPin { cid, change }),
        (UpdateIdentity::PutDag { .. }, UpdateReply::Put(Err(error))) => after
            == UpdateIdentity::Done(Err(error)),
        (UpdateIdentity::InsertPin { cid, change }, UpdateReply::Finished(Ok(_))) => after == (
        UpdateIdentity::StoreCid { cid, change }),
        (UpdateIdentity::InsertPin { .. }, UpdateReply::Finished(Err(error))) => after
            == UpdateIdentity::Done(Err(error)),
        (UpdateIdentity::StoreCid { change, .. }, UpdateReply::Finished(Ok(_))) => after
            == if change.cached {
            UpdateIdentity::QueryCache {
                by: LookupBy::Username(change.old_username),
                identity: change.identity,
            }
        } else {
            UpdateIdentity::UpdateStore
        },
        (UpdateIdentity::StoreCid { .. }, UpdateReply::Finished(Err(error))) => after
            == UpdateIdentity::Done(Err(error)),
        (
            UpdateIdentity::QueryCache { .. },
            UpdateReply::Queried(QueryOutcome::Rejected(error)),
        ) => after == UpdateIdentity::Done(Err(error)),
        (
            UpdateIdentity::QueryCache { identity, .. },
            UpdateReply::Queried(QueryOutcome::Failed(_)),
        ) => after == (UpdateIdentity::Encode { entry: None, identity }),
        (
            UpdateIdentity::QueryCache { identity, .. },
            UpdateReply::Queried(QueryOutcome::Found(list)),
        ) => after == if list@.len() == 0 {
            UpdateIdentity::UpdateStore
        } else {
            UpdateIdentity::Encode { entry: Some(list@.last()), identity }
        },
        (UpdateIdentity::Encode { entry: Some(data), .. }, UpdateReply::Encoded(Ok(value))) => after
            == (UpdateIdentity::AddData { data: Data { payload: Payload { value }, ..data } }),
        (UpdateIdentity::Encode { entry: None, .. }, UpdateReply::Encoded(Ok(value))) => {
            &&& after matches UpdateIdentity::AddData { data }
            &&& data.is_fresh(Module::Accounts)
            &&& data.payload.value == value
        },
        (UpdateIdentity::Encode { .. }, UpdateReply::Encoded(Err(error))) => after
            == UpdateIdentity::Done(Err(WarpError::SerdeJson(error))),
        (UpdateIdentity::AddData { .. }, UpdateReply::Finished(Ok(_))) => after
            == UpdateIdentity::UpdateStore,
        (UpdateIdentity::AddData { .. }, UpdateReply::Finished(Err(error))) => after
            == UpdateIdentity::Done(Err(error)),
        (UpdateIdentity::UpdateStore, UpdateReply::Finished(done)) => after
            == UpdateIdentity::Done(done),
        (before, _) => after == before,
    }
}

impl UpdateIdentity {
    /// Begins a change. `cached` says whether there is a cache.
    pub fn start(option: IdentityUpdate, cached: bool) -> (r: UpdateIdentity)
        ensures
            r == (UpdateIdentity::OwnIdentity { option, cached }),
    {
        UpdateIdentity::OwnIdentity { option, cached }
    }

    /// Goes on with the own identity.
    pub fn accept(own: Identity, option: IdentityUpdate, cached: bool) -> (r: UpdateIdentity)
        ensures
            r == if fields_given(option) == 1 {
                UpdateIdentity::RetrieveCid { change: change_of(own, option, cached) }
            } else {
                UpdateIdentity::Done(Err(WarpError::CannotUpdateIdentity))
            },
    {
        let mut identity = own;
        let old_username = identity.username.clone();
        match identity.apply(option) {
            Ok(_) => UpdateIdentity::RetrieveCid {
                change: Change { identity, old_username, cached },
            },
            Err(error) => UpdateIdentity::Done(Err(error)),
        }
    }

    /// Goes on with the identifier of the old content, or the error on reading it.
    pub fn unpin(change: Change, old_cid: Result<Cid, WarpError>) -> (r: UpdateIdentity)
        ensures
            r == unpinning(change, old_cid),
    {
        match old_cid {
            Ok(cid) => UpdateIdentity::RemovePin { cid, change },
            Err(error) => UpdateIdentity::Done(Err(error)),
        }
    }

    /// Goes on with the value that the identity was turned into: it becomes the
    /// payload of the object that the cache held, or that of a new one.
    pub fn cache_entry(entry: Option<Data>, value: Result<Value, serde_json::Error>) -> (r:
        UpdateIdentity)
        ensures
            match value {
                Ok(value) => r matches UpdateIdentity::AddData { data } && match entry {
                    Some(old) => data == (Data { payload: Payload { value }, ..old }),
                    None => data.is_fresh(Module::Accounts) && data.payload.value == value,
                },
                Err(error) => r == UpdateIdentity::Done(Err(WarpError::SerdeJson(error))),
            },
    {
        match entry {
            Some(old) => {
                let mut data = old;
                match data.set_result(value) {
                    Ok(_) => UpdateIdentity::AddData { data },
                    Err(error) => UpdateIdentity::Done(Err(error)),
                }
            },
            None => match Data::from_result(&Module::Accounts, value) {
                Ok(data) => UpdateIdentity::AddData { data },
                Err(error) => UpdateIdentity::Done(Err(error)),
            },
        }
    }

    /// Takes the outcome of the request.
    pub fn next(self, reply: UpdateReply) -> (r: UpdateIdentity)
        ensures
            update_step(self, reply, r),
    {
        match (self, reply) {
            (
                UpdateIdentity::OwnIdentity { option, cached },
                UpdateReply::Identity(Ok(own)),
            ) => UpdateIdentity::accept(own, option, cached),
            (
                UpdateIdentity::OwnIdentity { .. },
                UpdateReply::Identity(Err(error)),
            ) => UpdateIdentity::Done(Err(error)),
            (
                UpdateIdentity::RetrieveCid { change },
                UpdateReply::Secret(Ok(text)),
            ) => UpdateIdentity::unpin(change, Cid::parse(text.as_str())),
            (
                UpdateIdentity::RetrieveCid { change },
                UpdateReply::Secret(Err(_)),
            ) => UpdateIdentity::PutDag { change },
            (
                UpdateIdentity::RemovePin { change, .. },
                UpdateReply::Finished(Ok(_)),
            ) => UpdateIdentity::PutDag { change },
            (
                UpdateIdentity::RemovePin { .. },
                UpdateReply::Finished(Err(error)),
            ) => UpdateIdentity::Done(Err(error)),
            (UpdateIdentity::PutDag { change }, UpdateReply::Put(Ok(cid))) => {
                UpdateIdentity::InsertPin { cid, change }
            },
            (UpdateIdentity::PutDag { .. }, UpdateReply::Put(Err(error))) => UpdateIdentity::Done(
                Err(error),
            ),
            (
                UpdateIdentity::InsertPin { cid, change },
                UpdateReply::Finished(Ok(_)),
            ) => UpdateIdentity::StoreCid { cid, change },
            (
                UpdateIdentity::InsertPin { .. },
                UpdateReply::Finished(Err(error)),
            ) => UpdateIdentity::Done(Err(error)),
            (UpdateIdentity::StoreCid { change, .. }, UpdateReply::Finished(Ok(_))) => {
                if change.cached {
                    UpdateIdentity::QueryCache {
                        by: LookupBy::Username(change.old_username),
                        identity: change.identity,
                    }
                } else {
                    UpdateIdentity::UpdateStore
                }
            },
            (
                UpdateIdentity::StoreCid { .. },
                UpdateReply::Finished(Err(error)),
            ) => UpdateIdentity::Done(Err(error)),
            (
                UpdateIdentity::QueryCache { .. },
                UpdateReply::Queried(QueryOutcome::Rejected(error)),
            ) => UpdateIdentity::Done(Err(error)),
            (
                UpdateIdentity::QueryCache { identity, .. },
                UpdateReply::Queried(QueryOutcome::Failed(_)),
            ) => UpdateIdentity::Encode { entry: None, identity },
            (
                UpdateIdentity::QueryCache { identity, .. },
                UpdateReply::Queried(QueryOutcome::Found(list)),
            ) => {
                let mut list = list;
                match list.pop() {
                    Some(data) => UpdateIdentity::Encode { entry: Some(data), identity },
                    None => UpdateIdentity::UpdateStore,
                }
            },
            (
                UpdateIdentity::Encode { entry, .. },
                UpdateReply::Encoded(value),
            ) => UpdateIdentity::cache_entry(entry, value),
            (
                UpdateIdentity::AddData { .. },
                UpdateReply::Finished(Ok(_)),
            ) => UpdateIdentity::UpdateStore,
            (
                UpdateIdentity::AddData { .. },
                UpdateReply::Finished(Err(error)),
            ) => UpdateIdentity::Done(Err(error)),
            (UpdateIdentity::UpdateStore, UpdateReply::Finished(done)) => UpdateIdentity::Done(
                done,
            ),
            (before, _) => before,
        }
    }
}

/// A course that a change can take: by the outcomes `replies`, through `states`.
pub open spec fn update_run(
    option: IdentityUpdate,
    cached: bool,
    replies: Seq<UpdateReply>,
    states: Seq<UpdateIdentity>,
) -> bool {
    &&& states.len() == replies.len() + 1
    &&& states[0] == (UpdateIdentity::OwnIdentity { option, cached })
    &&& forall|i: int|
        0 <= i < replies.len() ==> update_step(states[i], #[trigger] replies[i], states[i + 1])
}

/// Whether an outcome says that something was done.
pub open spec fn succeeded(reply: UpdateReply) -> bool {
    reply matches UpdateReply::Finished(Ok(_))
}

/// A change that gives no field, or more than one, is refused, and nothing is
/// done but to get the own identity: on no course is anything unpinned, put,
/// pinned, stored or cached. As soon as the own identity was asked for, the
/// change is over, with the error of asking or with its refusal.
pub proof fn refused_update_has_no_effect(
    option: IdentityUpdate,
    cached: bool,
    replies: Seq<UpdateReply>,
    states: Seq<UpdateIdentity>,
    i: int,
)
    requires
        update_run(option, cached, replies, states),
        fields_given(option) != 1,
        0 <= i < states.len(),
    ensures
        match states[i] {
            UpdateIdentity::OwnIdentity { option: same, cached: too } => same == option && too
                == cached && forall|k: int| 0 <= k < i ==> !(#[trigger] replies[k] is Identity),
            UpdateIdentity::Done(Err(error)) => error == WarpError::CannotUpdateIdentity || exists|
                k: int,
            | 0 <= k < i && #[trigger] replies[k] == UpdateReply::Identity(Err(error)),
            _ => false,
        },
    decreases i,
{
    if i > 0 {
        refused_update_has_no_effect(option, cached, replies, states, i - 1);
        assert(update_step(states[i - 1], replies[i - 1], states[i]));
    }
}

/// Whether, before the point `i`, the cache was asked and answered so.
pub open spec fn was_queried(
    replies: Seq<UpdateReply>,
    states: Seq<UpdateIdentity>,
    i: int,
    outcome: QueryOutcome,
) -> bool {
    exists|k: int|
        0 <= k < i && states[k] is QueryCache && #[trigger] replies[k] == UpdateReply::Queried(
            outcome,
        )
}

/// Whether `entry` is what the answer of the cache, before the point `i`, leaves
/// to be brought up to date: the last object found, or none where the cache
/// failed.
pub open spec fn is_latest(
    replies: Seq<UpdateReply>,
    states: Seq<UpdateIdentity>,
    i: int,
    entry: Option<Data>,
) -> bool {
    match entry {
        Some(data) => exists|list: Vec<Data>|
            #[trigger] was_queried(replies, states, i, QueryOutcome::Found(list)) && list@.len() > 0
                && list@.last() == data,
        None => exists|error: WarpError| #[trigger]
            was_queried(replies, states, i, QueryOutcome::Failed(error)),
    }
}

/// Whether, before the point `i`, `identity` was turned into `value` for `entry`.
pub open spec fn was_encoded(
    replies: Seq<UpdateReply>,
    states: Seq<UpdateIdentity>,
    i: int,
    entry: Option<Data>,
    identity: Identity,
    value: Value,
) -> bool {
    exists|k: int|
        0 <= k < i && states[k] == (UpdateIdentity::Encode { entry, identity })
            && #[trigger] replies[k] == UpdateReply::Encoded(Ok(value))
}

/// An object that was made at the point `i` for `identity`: it carries what the
/// identity was turned into, and is for the rest the last object that the cache
/// found, or a new one of the accounts where the cache failed.
pub open spec fn is_entry(
    replies: Seq<UpdateReply>,
    states: Seq<UpdateIdentity>,
    i: int,
    entry: Option<Data>,
    identity: Identity,
    data: Data,
) -> bool {
    &&& is_latest(replies, states, i, entry)
    &&& was_encoded(replies, states, i, entry, identity, data.payload.value)
    &&& match entry {
        Some(old) => data == (Data { payload: data.payload, ..old }),
        None => data.is_fresh(Module::Accounts),
    }
}

/// What a cache that held `before` holds at the point `i`: in the order in which
/// they were added, what it held and what it took on the way.
pub open spec fn held_after(
    before: Seq<Data>,
    replies: Seq<UpdateReply>,
    states: Seq<UpdateIdentity>,
    i: int,
) -> Seq<Data>
    decreases i,
{
    if i <= 0 {
        before
    } else {
        let past = held_after(before, replies, states, i - 1);
        match (states[i - 1], replies[i - 1]) {
            (UpdateIdentity::AddData { data }, UpdateReply::Finished(Ok(_))) => past.push(data),
            _ => past,
        }
    }
}

/// Whether, at the point `i`, a cache that held `before` is up to date with
/// `identity`: it holds one more object, for that identity, or it was left alone,
/// because it had found nothing.
pub open spec fn is_current(
    before: Seq<Data>,
    replies: Seq<UpdateReply>,
    states: Seq<UpdateIdentity>,
    i: int,
    identity: Identity,
) -> bool {
    ||| exists|entry: Option<Data>, data: Data|
        #[trigger] is_entry(replies, states, i, entry, identity, data) && held_after(
            before,
            replies,
            states,
            i,
        ) == before.push(data)
    ||| held_after(before, replies, states, i) == before && exists|list: Vec<Data>|
        #[trigger] was_queried(replies, states, i, QueryOutcome::Found(list)) && list@.len() == 0
}

/// What is known, at the point `i`, of the work on a change that was made of the
/// identity `own`, and of what a cache holds that held `before`.
pub open spec fn works_on(
    before: Seq<Data>,
    replies: Seq<UpdateReply>,
    states: Seq<UpdateIdentity>,
    i: int,
    own: Identity,
    option: IdentityUpdate,
    cached: bool,
) -> bool {
    let change = change_of(own, option, cached);
    let untouched = held_after(before, replies, states, i) == before;
    match states[i] {
        UpdateIdentity::OwnIdentity { .. } => false,
        UpdateIdentity::RetrieveCid { change: same } => same == change && untouched,
        UpdateIdentity::RemovePin { change: same, .. } => same == change && untouched,
        UpdateIdentity::PutDag { change: same } => same == change && untouched,
        UpdateIdentity::InsertPin { change: same, .. } => same == change && untouched,
        UpdateIdentity::StoreCid { change: same, .. } => same == change && untouched,
        UpdateIdentity::QueryCache { by, identity } => {
            &&& cached
            &&& by == LookupBy::Username(own.username)
            &&& identity == change.identity
            &&& untouched
        },
        UpdateIdentity::Encode { entry, identity } => {
            &&& cached
            &&& is_latest(replies, states, i, entry)
            &&& identity == change.identity
            &&& untouched
        },
        UpdateIdentity::AddData { data } => {
            &&& cached
            &&& exists|entry: Option<Data>| #[trigger]
                is_entry(replies, states, i, entry, change.identity, data)
            &&& untouched
        },
        UpdateIdentity::UpdateStore => if cached {
            is_current(before, replies, states, i, change.identity)
        } else {
            untouched
        },
        UpdateIdentity::Done(Ok(_)) => if cached {
            is_current(before, replies, states, i, change.identity)
        } else {
            untouched
        },
        UpdateIdentity::Done(Err(_)) => true,
    }
}

/// What was known of the answers, and of an object, at one point is known at the
/// next.
proof fn entry_stays(
    replies: Seq<UpdateReply>,
    states: Seq<UpdateIdentity>,
    i: int,
    entry: Option<Data>,
)
    requires
        is_latest(replies, states, i, entry),
    ensures
        is_latest(replies, states, i + 1, entry),
        forall|identity: Identity, data: Data| #[trigger]
            is_entry(replies, states, i, entry, identity, data) ==> is_entry(
                replies,
                states,
                i + 1,
                entry,
                identity,
                data,
            ),
{
    match entry {
        Some(data) => {
            let list = choose|list: Vec<Data>|
                #[trigger] was_queried(replies, states, i, QueryOutcome::Found(list))
                    && list@.len() > 0 && list@.last() == data;
            assert(was_queried(replies, states, i + 1, QueryOutcome::Found(list)));
        },
        None => {
            let error = choose|error: WarpError| #[trigger]
                was_queried(replies, states, i, QueryOutcome::Failed(error));
            assert(was_queried(replies, states, i + 1, QueryOutcome::Failed(error)));
        },
    }
}

/// A cache that is up to date stays so while nothing is added.
proof fn current_stays(
    before: Seq<Data>,
    replies: Seq<UpdateReply>,
    states: Seq<UpdateIdentity>,
    i: int,
    identity: Identity,
)
    requires
        is_current(before, replies, states, i, identity),
        0 <= i,
        !(states[i] is AddData),
    ensures
        is_current(before, replies, states, i + 1, identity),
{
    assert(held_after(before, replies, states, i + 1) == held_after(before, replies, states, i));
    if exists|entry: Option<Data>, data: Data|
        #[trigger] is_entry(replies, states, i, entry, identity, data) && held_after(
            before,
            replies,
            states,
            i,
        ) == before.push(data) {
        let (entry, data) = choose|entry: Option<Data>, data: Data|
            #[trigger] is_entry(replies, states, i, entry, identity, data) && held_after(
                before,
                replies,
                states,
                i,
            ) == before.push(data);
        entry_stays(replies, states, i, entry);
        assert(is_entry(replies, states, i + 1, entry, identity, data));
    } else {
        let list = choose|list: Vec<Data>|
            #[trigger] was_queried(replies, states, i, QueryOutcome::Found(list)) && list@.len()
                == 0;
        assert(was_queried(replies, states, i + 1, QueryOutcome::Found(list)));
    }
}

/// One step of the work on a change.
proof fn work_goes_on(
    before: Seq<Data>,
    replies: Seq<UpdateReply>,
    states: Seq<UpdateIdentity>,
    i: int,
    own: Identity,
    option: IdentityUpdate,
    cached: bool,
)
    requires
        works_on(before, replies, states, i, own, option, cached),
        0 <= i < replies.len(),
        states.len() == replies.len() + 1,
        update_step(states[i], replies[i], states[i + 1]),
    ensures
        works_on(before, replies, states, i + 1, own, option, cached),
{
    let identity = change_of(own, option, cached).identity;
    match states[i] {
        UpdateIdentity::QueryCache { .. } => {
            match replies[i] {
                UpdateReply::Queried(QueryOutcome::Failed(error)) => {
                    assert(was_queried(replies, states, i + 1, QueryOutcome::Failed(error)));
                },
                UpdateReply::Queried(QueryOutcome::Found(list)) => {
                    assert(was_queried(replies, states, i + 1, QueryOutcome::Found(list)));
                },
                _ => {},
            }
        },
        UpdateIdentity::Encode { entry, .. } => {
            entry_stays(replies, states, i, entry);
            if let UpdateIdentity::AddData { data } = states[i + 1] {
                assert(is_entry(replies, states, i + 1, entry, identity, data));
            }
        },
        UpdateIdentity::AddData { data } => {
            let entry = choose|entry: Option<Data>| #[trigger]
                is_entry(replies, states, i, entry, identity, data);
            entry_stays(replies, states, i, entry);
            assert(is_entry(replies, states, i + 1, entry, identity, data));
        },
        UpdateIdentity::UpdateStore => {
            if cached {
                current_stays(before, replies, states, i, identity);
            }
        },
        UpdateIdentity::Done(Ok(_)) => {
            if cached {
                current_stays(before, replies, states, i, identity);
            }
        },
        _ => {},
    }
}

/// On every course, all work is on one identity: the own one, with the one field
/// that was given in place of its own. The cache is asked by the name that the
/// identity had before, and is left alone where there is none. The one object
/// that is added carries what that identity was turned into, and is for the rest
/// the last one that was found, or a new one where the cache failed. A change
/// that ends well has added it, unless the cache had found nothing.
pub proof fn update_works_on_one_change(
    before: Seq<Data>,
    option: IdentityUpdate,
    cached: bool,
    replies: Seq<UpdateReply>,
    states: Seq<UpdateIdentity>,
    i: int,
)
    requires
        update_run(option, cached, replies, states),
        0 <= i < states.len(),
    ensures
        ({
            ||| states[i] == (UpdateIdentity::OwnIdentity { option, cached }) && held_after(
                before,
                replies,
                states,
                i,
            ) == before
            ||| states[i] matches UpdateIdentity::Done(Err(_))
            ||| exists|own: Identity|
                works_on(before, replies, states, i, own, option, cached) && #[trigger] replies.take(
                    i,
                ).contains(UpdateReply::Identity(Ok(own)))
        }),
    decreases i,
{
    if i > 0 {
        update_works_on_one_change(before, option, cached, replies, states, i - 1);
        assert(update_step(states[i - 1], replies[i - 1], states[i]));
        let now = replies.take(i);
        let past = replies.take(i - 1);
        outcomes_stay(past, now);
        if states[i - 1] == (UpdateIdentity::OwnIdentity { option, cached }) {
            if let UpdateReply::Identity(Ok(own)) = replies[i - 1] {
                assert(now.contains(UpdateReply::Identity(Ok(own))));
            }
        } else if !(states[i - 1] matches UpdateIdentity::Done(Err(_))) {
            let own = choose|own: Identity|
                works_on(before, replies, states, i - 1, own, option, cached)
                    && #[trigger] past.contains(UpdateReply::Identity(Ok(own)));
            work_goes_on(before, replies, states, i - 1, own, option, cached);
            assert(now.contains(UpdateReply::Identity(Ok(own))));
        }
    }
}

/// Whether, before the point `i`, the old content was unpinned, or none was known.
pub open spec fn was_unpinned(
    replies: Seq<UpdateReply>,
    states: Seq<UpdateIdentity>,
    i: int,
) -> bool {
    exists|k: int|
        0 <= k < i && {
            ||| states[k] is RetrieveCid && (#[trigger] replies[k] matches UpdateReply::Secret(
                Err(_),
            ))
            ||| states[k] is RemovePin && succeeded(replies[k])
        }
}

/// Whether, before the point `i`, `cid` was put.
pub open spec fn was_put(
    replies: Seq<UpdateReply>,
    states: Seq<UpdateIdentity>,
    i: int,
    cid: Cid,
) -> bool {
    exists|k: int|
        0 <= k < i && states[k] is PutDag && #[trigger] replies[k] == UpdateReply::Put(Ok(cid))
}

/// Whether, before the point `i`, `cid` was pinned.
pub open spec fn was_pinned(
    replies: Seq<UpdateReply>,
    states: Seq<UpdateIdentity>,
    i: int,
    cid: Cid,
) -> bool {
    exists|k: int|
        {
            &&& 0 <= k < i
            &&& states[k] matches UpdateIdentity::InsertPin { cid: same, .. }
            &&& same == cid
            &&& succeeded(#[trigger] replies[k])
        }
}

/// Whether, before the point `i`, the identifier of a piece of content was stored
/// that had been put and pinned.
pub open spec fn was_stored(
    replies: Seq<UpdateReply>,
    states: Seq<UpdateIdentity>,
    i: int,
) -> bool {
    exists|k: int|
        {
            &&& 0 <= k < i
            &&& states[k] matches UpdateIdentity::StoreCid { cid, .. }
            &&& was_put(replies, states, k, cid)
            &&& was_pinned(replies, states, k, cid)
            &&& succeeded(#[trigger] replies[k])
        }
}

/// On every course, the steps come in their order. New content is put only when
/// the old one was unpinned, or none was known. What is pinned is what was put.
/// The identifier that is stored is that of what was put and pinned. The cache
/// and the identity store are turned to only when it was stored, and so the
/// change succeeds only then.
pub proof fn update_keeps_the_order(
    option: IdentityUpdate,
    cached: bool,
    replies: Seq<UpdateReply>,
    states: Seq<UpdateIdentity>,
    i: int,
)
    requires
        update_run(option, cached, replies, states),
        0 <= i < states.len(),
    ensures
        match states[i] {
            UpdateIdentity::OwnIdentity { .. } => true,
            UpdateIdentity::RetrieveCid { .. } => true,
            UpdateIdentity::RemovePin { .. } => true,
            UpdateIdentity::PutDag { .. } => was_unpinned(replies, states, i),
            UpdateIdentity::InsertPin { cid, .. } => was_put(replies, states, i, cid)
                && was_unpinned(replies, states, i),
            UpdateIdentity::StoreCid { cid, .. } => was_put(replies, states, i, cid) && was_pinned(
                replies,
                states,
                i,
                cid,
            ) && was_unpinned(replies, states, i),
            UpdateIdentity::QueryCache { .. } => was_stored(replies, states, i),
            UpdateIdentity::Encode { .. } => was_stored(replies, states, i),
            UpdateIdentity::AddData { .. } => was_stored(replies, states, i),
            UpdateIdentity::UpdateStore => was_stored(replies, states, i),
            UpdateIdentity::Done(Ok(_)) => was_stored(replies, states, i) && exists|k: int|
                0 <= k < i && states[k] is UpdateStore && succeeded(#[trigger] replies[k]),
            UpdateIdentity::Done(Err(_)) => true,
        },
    decreases i,
{
    if i > 0 {
        update_keeps_the_order(option, cached, replies, states, i - 1);
        assert(update_step(states[i - 1], replies[i - 1], states[i]));
    }
}

/// What one change stored, the next one unpins: where the key store returns the
/// text of the identifier that was stored, it is read as that identifier.
pub proof fn next_update_unpins_what_was_stored(
    stored: Cid,
    change: Change,
    text: String,
    after: UpdateIdentity,
)
    requires
        stored.wf(),
        text@ == stored@,
        update_step(
            UpdateIdentity::RetrieveCid { change },
            UpdateReply::Secret(Ok(text)),
            after,
        ),
    ensures
        after matches UpdateIdentity::RemovePin { cid, change: same } && cid@ == stored@ && same
            == change,
{
}

/// Whether an outcome belongs to the request.
pub open spec fn update_answers(state: UpdateIdentity, reply: UpdateReply) -> bool {
    match state {
        UpdateIdentity::OwnIdentity { .. } => reply is Identity,
        UpdateIdentity::RetrieveCid { .. } => reply is Secret,
        UpdateIdentity::RemovePin { .. } => reply is Finished,
        UpdateIdentity::PutDag { .. } => reply is Put,
        UpdateIdentity::InsertPin { .. } => reply is Finished,
        UpdateIdentity::StoreCid { .. } => reply is Finished,
        UpdateIdentity::QueryCache { .. } => reply is Queried,
        UpdateIdentity::Encode { .. } => reply is Encoded,
        UpdateIdentity::AddData { .. } => reply is Finished,
        UpdateIdentity::UpdateStore => reply is Finished,
        UpdateIdentity::Done(_) => false,
    }
}

/// How many requests a change can still make.
pub open spec fn update_left(state: UpdateIdentity) -> nat {
    match state {
        UpdateIdentity::OwnIdentity { .. } => 10,
        UpdateIdentity::RetrieveCid { .. } => 9,
        UpdateIdentity::RemovePin { .. } => 8,
        UpdateIdentity::PutDag { .. } => 7,
        UpdateIdentity::InsertPin { .. } => 6,
        UpdateIdentity::StoreCid { .. } => 5,
        UpdateIdentity::QueryCache { .. } => 4,
        UpdateIdentity::Encode { .. } => 3,
        UpdateIdentity::AddData { .. } => 2,
        UpdateIdentity::UpdateStore => 1,
        UpdateIdentity::Done(_) => 0,
    }
}

/// A change comes to an end: each outcome that belongs to its request brings it
/// nearer, and no other moves it.
pub proof fn update_ends(before: UpdateIdentity, reply: UpdateReply, after: UpdateIdentity)
    requires
        update_step(before, reply, after),
    ensures
        update_answers(before, reply) ==> update_left(after) < update_left(before),
        !update_answers(before, reply) ==> after == before,
        update_left(before) == 0 <==> before is Done,
{
}

/// What is put, pinned and cached is the own identity with the given field in
/// place of its own: where one field is given, it has the given value, whatever it
/// had before, and every other field, the key with them, is as it was. The old
/// name and whether there is a cache are kept for later.
pub proof fn change_sets_the_given_field(
    option: IdentityUpdate,
    cached: bool,
    own: Identity,
    after: UpdateIdentity,
)
    requires
        call_ensures(
            UpdateIdentity::next,
            (UpdateIdentity::OwnIdentity { option, cached }, UpdateReply::Identity(Ok(own))),
            after,
        ),
        fields_given(option) == 1,
    ensures
        after matches UpdateIdentity::RetrieveCid { change } && {
            let identity = change.identity;
            &&& option.username matches Some(username) ==> identity.username == username
            &&& option.username is None ==> identity.username == own.username
            &&& option.graphics_picture matches Some(hash) ==> identity.graphics.profile_picture
                == hash
            &&& option.graphics_picture is None ==> identity.graphics.profile_picture
                == own.graphics.profile_picture
            &&& option.graphics_banner matches Some(hash) ==> identity.graphics.profile_banner
                == hash
            &&& option.graphics_banner is None ==> identity.graphics.profile_banner
                == own.graphics.profile_banner
            &&& option.status_message matches Some(status) ==> identity.status_message == status
            &&& option.status_message is None ==> identity.status_message == own.status_message
            &&& identity.public_key == own.public_key
            &&& change.old_username == own.username
            &&& change.cached == cached
        },
{
}

/// A change of no field, or of more than one, is refused whatever the identity is,
/// and one of one field is not.
pub proof fn change_is_refused_by_its_fields(
    option: IdentityUpdate,
    cached: bool,
    own: Identity,
    after: UpdateIdentity,
)
    requires
        call_ensures(
            UpdateIdentity::next,
            (UpdateIdentity::OwnIdentity { option, cached }, UpdateReply::Identity(Ok(own))),
            after,
        ),
    ensures
        after is Done <==> {
            let name = option.username is Some;
            let picture = option.graphics_picture is Some;
            let banner = option.graphics_banner is Some;
            let status = option.status_message is Some;
            ||| !name && !picture && !banner && !status
            ||| name && picture
            ||| name && banner
            ||| name && status
            ||| picture && banner
            ||| picture && status
            ||| banner && status
        },
        after is Done ==> after == UpdateIdentity::Done(Err(WarpError::CannotUpdateIdentity)),
{
}

/// The error that an outcome brings, if it brings one. That the key store has no
/// identifier is none, and neither is a cache that fails.
pub open spec fn update_error(reply: UpdateReply) -> Option<WarpError> {
    match reply {
        UpdateReply::Identity(Err(error)) => Some(error),
        UpdateReply::Finished(Err(error)) => Some(error),
        UpdateReply::Put(Err(error)) => Some(error),
        UpdateReply::Queried(QueryOutcome::Rejected(error)) => Some(error),
        UpdateReply::Encoded(Err(error)) => Some(WarpError::SerdeJson(error)),
        _ => None,
    }
}

/// A change fails exactly where an outcome that belongs to its request brings an
/// error, with that error; where what the key store holds is no content
/// identifier; or where not exactly one field is given.
pub proof fn change_fails_with_its_services(
    before: UpdateIdentity,
    reply: UpdateReply,
    after: UpdateIdentity,
)
    requires
        update_answers(before, reply),
        call_ensures(UpdateIdentity::next, (before, reply), after),
    ensures
        update_error(reply) matches Some(error) ==> after == UpdateIdentity::Done(Err(error)),
        update_error(reply) is None ==> ((after matches UpdateIdentity::Done(Err(_))) <==> {
            ||| reply matches UpdateReply::Secret(Ok(text)) && !is_cid(text@)
            ||| before matches UpdateIdentity::OwnIdentity { option, .. } && fields_given(option)
                != 1
        }),
        after matches UpdateIdentity::Done(Ok(_)) ==> before is UpdateStore,
{
}

/// Success follows from success: on every course of a change of one field on which
/// each outcome belongs to its request, none is an error, and what the key store
/// holds, if anything, is a content identifier, the change does not fail, and
/// after as many outcomes as it can need it has succeeded. Which field it is, what
/// it had before, and whether there is a cache makes no difference to that.
pub proof fn change_succeeds_where_all_goes_well(
    option: IdentityUpdate,
    cached: bool,
    replies: Seq<UpdateReply>,
    states: Seq<UpdateIdentity>,
    i: int,
)
    requires
        update_run(option, cached, replies, states),
        fields_given(option) == 1,
        0 <= i < states.len(),
        forall|k: int|
            0 <= k < replies.len() ==> {
                &&& update_error(#[trigger] replies[k]) is None
                &&& replies[k] matches UpdateReply::Secret(Ok(text)) ==> is_cid(text@)
                &&& states[k] is Done || update_answers(states[k], replies[k])
            },
    ensures
        !(states[i] matches UpdateIdentity::Done(Err(_))),
        i >= 10 ==> states[i] matches UpdateIdentity::Done(Ok(_)),
        update_left(states[i]) + i <= 10 || states[i] is Done,
        states[i] matches UpdateIdentity::OwnIdentity { option: same, .. } ==> same == option,
    decreases i,
{
    if i > 0 {
        change_succeeds_where_all_goes_well(option, cached, replies, states, i - 1);
        assert(update_step(states[i - 1], replies[i - 1], states[i]));
    }
}

/// A change that failed did so with an error that an outcome brought, because what
/// the key store held was no content identifier, or because not exactly one field
/// was given.
pub proof fn change_invents_no_error(
    option: IdentityUpdate,
    cached: bool,
    replies: Seq<UpdateReply>,
    states: Seq<UpdateIdentity>,
    i: int,
)
    requires
        update_run(option, cached, replies, states),
        0 <= i < states.len(),
    ensures
        states[i] matches UpdateIdentity::Done(Err(error)) ==> {
            ||| exists|k: int|
                0 <= k < i && {
                    ||| update_error(#[trigger] replies[k]) == Some(error)
                    ||| (replies[k] matches UpdateReply::Secret(Ok(text)) && !is_cid(text@))
                        && error is Cid
                }
            ||| error == WarpError::CannotUpdateIdentity && fields_given(option) != 1
        },
        states[i] matches UpdateIdentity::OwnIdentity { option: same, .. } ==> same == option,
    decreases i,
{
    if i > 0 {
        change_invents_no_error(option, cached, replies, states, i - 1);
        assert(update_step(states[i - 1], replies[i - 1], states[i]));
    }
}

/// What the key store holds is what is unpinned, where it is a content identifier;
/// and whether or not something was unpinned, the same content is put.
pub proof fn old_content_is_unpinned(
    change: Change,
    text: String,
    unpinning: UpdateIdentity,
    unpinned: UpdateIdentity,
    absent: WarpError,
    unknown: UpdateIdentity,
)
    requires
        is_cid(text@),
        call_ensures(
            UpdateIdentity::next,
            (UpdateIdentity::RetrieveCid { change }, UpdateReply::Secret(Ok(text))),
            unpinning,
        ),
        call_ensures(
            UpdateIdentity::next,
            (unpinning, UpdateReply::Finished(Ok(()))),
            unpinned,
        ),
        call_ensures(
            UpdateIdentity::next,
            (UpdateIdentity::RetrieveCid { change }, UpdateReply::Secret(Err(absent))),
            unknown,
        ),
    ensures
        unpinning matches UpdateIdentity::RemovePin { cid, .. } && cid@ == text@,
        unpinned == unknown,
        unpinned matches UpdateIdentity::PutDag { change: same } && same == change,
{
}

/// What was put is what is pinned, and its identifier is what is stored. After
/// that the cache, where there is one, is asked by the old name, and otherwise the
/// identity store is told.
pub proof fn new_content_is_pinned_and_stored(
    change: Change,
    cid: Cid,
    pinning: UpdateIdentity,
    storing: UpdateIdentity,
    stored: UpdateIdentity,
)
    requires
        call_ensures(
            UpdateIdentity::next,
            (UpdateIdentity::PutDag { change }, UpdateReply::Put(Ok(cid))),
            pinning,
        ),
        call_ensures(
            UpdateIdentity::next,
            (pinning, UpdateReply::Finished(Ok(()))),
            storing,
        ),
        call_ensures(
            UpdateIdentity::next,
            (storing, UpdateReply::Finished(Ok(()))),
            stored,
        ),
    ensures
        pinning matches UpdateIdentity::InsertPin { cid: same, .. } && same == cid,
        storing matches UpdateIdentity::StoreCid { cid: same, .. } && same == cid,
        change.cached ==> (stored matches UpdateIdentity::QueryCache { by, identity } && by
            == LookupBy::Username(change.old_username) && identity == change.identity),
        !change.cached ==> stored is UpdateStore,
{
}

/// The last object that the cache found gets what the identity was turned into for
/// its payload, and keeps everything else; it is added, and then the identity
/// store is told.
pub proof fn found_object_is_brought_up_to_date(
    by: LookupBy,
    identity: Identity,
    list: Vec<Data>,
    encoding: UpdateIdentity,
    value: Value,
    adding: UpdateIdentity,
    added: UpdateIdentity,
)
    requires
        list@.len() > 0,
        call_ensures(
            UpdateIdentity::next,
            (
                UpdateIdentity::QueryCache { by, identity },
                UpdateReply::Queried(QueryOutcome::Found(list)),
            ),
            encoding,
        ),
        call_ensures(
            UpdateIdentity::next,
            (encoding, UpdateReply::Encoded(Ok(value))),
            adding,
        ),
        call_ensures(UpdateIdentity::next, (adding, UpdateReply::Finished(Ok(()))), added),
    ensures
        encoding matches UpdateIdentity::Encode { identity: same, .. } && same == identity,
        adding matches UpdateIdentity::AddData { data } && {
            let old = list@[list@.len() - 1];
            &&& data.payload.value == value
            &&& data.id == old.id
            &&& data.version == old.version
            &&& data.timestamp == old.timestamp
            &&& data.size == old.size
            &&& data.module == old.module
        },
        added is UpdateStore,
{
}

/// Where the cache failed, a new object of the accounts is added that carries what
/// the identity was turned into; where it found nothing, none is added. In both
/// cases the identity store is told in the end.
pub proof fn cache_without_an_object(
    by: LookupBy,
    identity: Identity,
    error: WarpError,
    encoding: UpdateIdentity,
    value: Value,
    adding: UpdateIdentity,
    added: UpdateIdentity,
    list: Vec<Data>,
    passed: UpdateIdentity,
)
    requires
        list@.len() == 0,
        call_ensures(
            UpdateIdentity::next,
            (
                UpdateIdentity::QueryCache { by, identity },
                UpdateReply::Queried(QueryOutcome::Failed(error)),
            ),
            encoding,
        ),
        call_ensures(
            UpdateIdentity::next,
            (encoding, UpdateReply::Encoded(Ok(value))),
            adding,
        ),
        call_ensures(UpdateIdentity::next, (adding, UpdateReply::Finished(Ok(()))), added),
        call_ensures(
            UpdateIdentity::next,
            (
                UpdateIdentity::QueryCache { by, identity },
                UpdateReply::Queried(QueryOutcome::Found(list)),
            ),
            passed,
        ),
    ensures
        encoding matches UpdateIdentity::Encode { identity: same, .. } && same == identity,
        adding matches UpdateIdentity::AddData { data } && {
            &&& data.payload.value == value
            &&& data.module == Module::Accounts
            &&& data.timestamp.is_reading()
            &&& is_drawn_id(data.id)
            &&& data.version == 0
            &&& data.size == 0
        },
        added is UpdateStore,
        passed is UpdateStore,
{
}

/// What the identity store says in the end is the result of the change.
pub proof fn store_decides_in_the_end(told: Result<(), WarpError>, after: UpdateIdentity)
    requires
        call_ensures(
            UpdateIdentity::next,
            (UpdateIdentity::UpdateStore, UpdateReply::Finished(told)),
            after,
        ),
    ensures
        after == UpdateIdentity::Done(told),
{
}

/// The identifier is kept under its own name, and the identity is pinned by
/// itself.
pub proof fn identity_is_pinned_by_itself()
    ensures
        IDENT_CID_KEY@ == "ident_cid"@,
        !PIN_RECURSIVE,
{
}

} // verus!
