//! How an identity is looked up: first in the cache, then in the store.

use vstd::prelude::*;

use crate::course::outcomes_stay;
use crate::data::Data;
use crate::error::WarpError;
use crate::identity::{Identifier, Identity, LookupBy};

verus! {

/// The outcome of a query to the cache.
pub enum QueryOutcome {
    /// The query could not be put.
    Rejected(WarpError),
    /// The cache failed.
    Failed(WarpError),
    /// What the cache holds, the latest last.
    Found(Vec<Data>),
}

/// A lookup, by the request that is to be carried out next.
pub enum GetIdentity {
    /// Query the accounts of the cache for the objects whose field `by.field()`
    /// is what `by` holds.
    QueryCache { by: LookupBy },
    /// Read the payload of `data` as an identity.
    Decode { data: Data },
    /// Look up in the identity store.
    Lookup { by: LookupBy },
    /// Get the own identity from the identity store.
    OwnIdentity,
    /// Nothing is left to do.
    Done(Result<Identity, WarpError>),
}

/// The outcome of a request.
pub enum GetReply {
    /// What the cache answered.
    Queried(QueryOutcome),
    /// What a payload was read as.
    Decoded(Result<Identity, WarpError>),
    /// What the identity store returned.
    Stored(Result<Identity, WarpError>),
}

/// By what an identifier names an identity other than the own one.
pub open spec fn lookup_key(id: Identifier) -> Option<LookupBy> {
    match (id.public_key, id.username, id.own) {
        (Some(key), None, false) => Some(LookupBy::PublicKey(key)),
        (None, Some(username), false) => Some(LookupBy::Username(username)),
        _ => None,
    }
}

/// Whether an identifier names the own identity.
pub open spec fn names_own(id: Identifier) -> bool {
    id.public_key is None && id.username is None && id.own
}

/// Where a lookup begins.
pub open spec fn lookup_start(id: Identifier, cached: bool) -> GetIdentity {
    match lookup_key(id) {
        Some(by) => if cached {
            GetIdentity::QueryCache { by }
        } else {
            GetIdentity::Lookup { by }
        },
        None => if names_own(id) {
            GetIdentity::OwnIdentity
        } else {
            GetIdentity::Done(Err(WarpError::InvalidIdentifierCondition))
        },
    }
}

/// What follows a request and its outcome. The latest object that the cache holds
/// is the answer, whatever it is read as; the store is asked where the cache
/// holds none, or fails. An outcome that does not belong to the request changes
/// nothing.
pub open spec fn lookup_step(before: GetIdentity, reply: GetReply) -> GetIdentity {
    match (before, reply) {
        (
            GetIdentity::QueryCache { .. },
            GetReply::Queried(QueryOutcome::Rejected(error)),
        ) => GetIdentity::Done(Err(error)),
        (
            GetIdentity::QueryCache { by },
            GetReply::Queried(QueryOutcome::Failed(_)),
        ) => GetIdentity::Lookup { by },
        (GetIdentity::QueryCache { by }, GetReply::Queried(QueryOutcome::Found(list))) => {
            if list@.len() == 0 {
                GetIdentity::Lookup { by }
            } else {
                GetIdentity::Decode { data: list@.last() }
            }
        },
        (GetIdentity::Decode { .. }, GetReply::Decoded(identity)) => GetIdentity::Done(identity),
        (GetIdentity::Lookup { .. }, GetReply::Stored(identity)) => GetIdentity::Done(identity),
        (GetIdentity::OwnIdentity, GetReply::Stored(identity)) => GetIdentity::Done(identity),
        (before, _) => before,
    }
}

impl GetIdentity {
    /// Begins a lookup. `cached` says whether there is a cache.
    pub fn start(id: Identifier, cached: bool) -> (r: GetIdentity)
        ensures
            r == lookup_start(id, cached),
    {
        match id.get_inner() {
            (Some(key), None, false) => GetIdentity::begin(LookupBy::PublicKey(key), cached),
            (None, Some(username), false) => GetIdentity::begin(
                LookupBy::Username(username),
                cached,
            ),
            (None, None, true) => GetIdentity::OwnIdentity,
            _ => GetIdentity::Done(Err(WarpError::InvalidIdentifierCondition)),
        }
    }

    fn begin(by: LookupBy, cached: bool) -> (r: GetIdentity)
        ensures
            r == if cached {
                GetIdentity::QueryCache { by }
            } else {
                GetIdentity::Lookup { by }
            },
    {
        if cached {
            GetIdentity::QueryCache { by }
        } else {
            GetIdentity::Lookup { by }
        }
    }

    /// Takes the outcome of the request.
    pub fn next(self, reply: GetReply) -> (r: GetIdentity)
        ensures
            r == lookup_step(self, reply),
    {
        match (self, reply) {
            (
                GetIdentity::QueryCache { .. },
                GetReply::Queried(QueryOutcome::Rejected(error)),
            ) => GetIdentity::Done(Err(error)),
            (
                GetIdentity::QueryCache { by },
                GetReply::Queried(QueryOutcome::Failed(_)),
            ) => GetIdentity::Lookup { by },
            (GetIdentity::QueryCache { by }, GetReply::Queried(QueryOutcome::Found(list))) => {
                let mut list = list;
                match list.pop() {
                    Some(data) => GetIdentity::Decode { data },
                    None => GetIdentity::Lookup { by },
                }
            },
            (GetIdentity::Decode { .. }, GetReply::Decoded(identity)) => GetIdentity::Done(
                identity,
            ),
            (GetIdentity::Lookup { .. }, GetReply::Stored(identity)) => GetIdentity::Done(identity),
            (GetIdentity::OwnIdentity, GetReply::Stored(identity)) => GetIdentity::Done(identity),
            (before, _) => before,
        }
    }
}

/// The state of a lookup after some outcomes.
pub open spec fn lookup_after(start: GetIdentity, replies: Seq<GetReply>) -> GetIdentity
    decreases replies.len(),
{
    if replies.len() == 0 {
        start
    } else {
        lookup_step(lookup_after(start, replies.drop_last()), replies.last())
    }
}

/// Whatever comes back, a lookup asks for nothing but what the identifier names:
/// the cache, which is asked only where there is one, and the store are asked by
/// the same key; the own identity is asked of the store alone; and an identifier
/// that names nothing, or more than one thing, is refused before anything is
/// asked.
pub proof fn lookup_asks_for_what_is_named(id: Identifier, cached: bool, replies: Seq<GetReply>)
    ensures
        match lookup_after(lookup_start(id, cached), replies) {
            GetIdentity::QueryCache { by } => cached && lookup_key(id) == Some(by),
            GetIdentity::Decode { .. } => cached && lookup_key(id) is Some,
            GetIdentity::Lookup { by } => lookup_key(id) == Some(by),
            GetIdentity::OwnIdentity => names_own(id),
            GetIdentity::Done(_) => true,
        },
        lookup_key(id) is None && !names_own(id) ==> lookup_after(lookup_start(id, cached), replies)
            == GetIdentity::Done(Err(WarpError::InvalidIdentifierCondition)),
    decreases replies.len(),
{
    if replies.len() > 0 {
        lookup_asks_for_what_is_named(id, cached, replies.drop_last());
    }
}

/// Where the cache holds an object, the store is not asked any more: what is left
/// is to read the latest one, and the reading is the result, good or bad.
pub proof fn cache_hit_is_final(by: LookupBy, list: Vec<Data>, replies: Seq<GetReply>)
    requires
        list@.len() > 0,
    ensures
        ({
            let hit = lookup_step(
                GetIdentity::QueryCache { by },
                GetReply::Queried(QueryOutcome::Found(list)),
            );
            let state = lookup_after(hit, replies);
            ||| state == (GetIdentity::Decode { data: list@.last() })
            ||| exists|read: Result<Identity, WarpError>|
                state == GetIdentity::Done(read) && #[trigger] replies.contains(
                    GetReply::Decoded(read),
                )
        }),
    decreases replies.len(),
{
    if replies.len() > 0 {
        let past = replies.drop_last();
        let hit = lookup_step(
            GetIdentity::QueryCache { by },
            GetReply::Queried(QueryOutcome::Found(list)),
        );
        cache_hit_is_final(by, list, past);
        outcomes_stay(past, replies);
        if lookup_after(hit, past) is Done {
            assert(past.contains(GetReply::Decoded(lookup_after(hit, past)->Done_0)));
        } else if replies.last() is Decoded {
            assert(replies.contains(GetReply::Decoded(replies.last()->Decoded_0)));
        }
    }
}

/// An identity that a lookup returns was read from the cache or came from the
/// store.
pub proof fn lookup_invents_nothing(id: Identifier, cached: bool, replies: Seq<GetReply>)
    ensures
        lookup_after(lookup_start(id, cached), replies) matches GetIdentity::Done(Ok(identity)) ==> {
            ||| replies.contains(GetReply::Decoded(Ok(identity)))
            ||| replies.contains(GetReply::Stored(Ok(identity)))
        },
    decreases replies.len(),
{
    if replies.len() > 0 {
        let past = replies.drop_last();
        lookup_invents_nothing(id, cached, past);
        outcomes_stay(past, replies);
    }
}

/// Whether an outcome belongs to the request.
pub open spec fn lookup_answers(state: GetIdentity, reply: GetReply) -> bool {
    match state {
        GetIdentity::QueryCache { .. } => reply is Queried,
        GetIdentity::Decode { .. } => reply is Decoded,
        GetIdentity::Lookup { .. } => reply is Stored,
        GetIdentity::OwnIdentity => reply is Stored,
        GetIdentity::Done(_) => false,
    }
}

/// How many requests a lookup can still make.
pub open spec fn lookup_left(state: GetIdentity) -> nat {
    match state {
        GetIdentity::QueryCache { .. } => 2,
        GetIdentity::Decode { .. } => 1,
        GetIdentity::Lookup { .. } => 1,
        GetIdentity::OwnIdentity => 1,
        GetIdentity::Done(_) => 0,
    }
}

/// A lookup comes to an end: each outcome that belongs to its request brings it
/// nearer, and no other moves it.
pub proof fn lookup_ends(before: GetIdentity, reply: GetReply)
    ensures
        lookup_answers(before, reply) ==> lookup_left(lookup_step(before, reply)) < lookup_left(
            before,
        ),
        !lookup_answers(before, reply) ==> lookup_step(before, reply) == before,
        lookup_left(before) == 0 <==> before is Done,
{
}

/// What the store returns is the result, for good or bad, whether it was asked by
/// a key, by a name, or for the own identity.
pub proof fn store_answer_is_the_result(
    before: GetIdentity,
    stored: Result<Identity, WarpError>,
    after: GetIdentity,
)
    requires
        before is Lookup || before is OwnIdentity,
        call_ensures(GetIdentity::next, (before, GetReply::Stored(stored)), after),
    ensures
        after == GetIdentity::Done(stored),
{
}

/// What the last object of the cache is read as is the result, for good or bad.
pub proof fn cached_object_is_the_result(
    by: LookupBy,
    list: Vec<Data>,
    hit: GetIdentity,
    read: Result<Identity, WarpError>,
    after: GetIdentity,
)
    requires
        list@.len() > 0,
        call_ensures(
            GetIdentity::next,
            (GetIdentity::QueryCache { by }, GetReply::Queried(QueryOutcome::Found(list))),
            hit,
        ),
        call_ensures(GetIdentity::next, (hit, GetReply::Decoded(read)), after),
    ensures
        hit matches GetIdentity::Decode { data } && data == list@[list@.len() - 1],
        after == GetIdentity::Done(read),
{
}

/// A cache that holds nothing of what is looked for, or fails, changes nothing:
/// the store is asked for the same, and its answer is the result.
pub proof fn cache_without_an_answer_is_passed_over(
    by: LookupBy,
    outcome: QueryOutcome,
    missed: GetIdentity,
    stored: Result<Identity, WarpError>,
    after: GetIdentity,
)
    requires
        outcome is Failed || (outcome matches QueryOutcome::Found(list) && list@.len() == 0),
        call_ensures(
            GetIdentity::next,
            (GetIdentity::QueryCache { by }, GetReply::Queried(outcome)),
            missed,
        ),
        call_ensures(GetIdentity::next, (missed, GetReply::Stored(stored)), after),
    ensures
        missed matches GetIdentity::Lookup { by: same } && same == by,
        after == GetIdentity::Done(stored),
{
}

/// A query that cannot be put ends the lookup, with the reason.
pub proof fn rejected_query_is_the_result(by: LookupBy, error: WarpError, after: GetIdentity)
    requires
        call_ensures(
            GetIdentity::next,
            (GetIdentity::QueryCache { by }, GetReply::Queried(QueryOutcome::Rejected(error))),
            after,
        ),
    ensures
        after == GetIdentity::Done(Err(error)),
{
}

/// A lookup that is over stays over, with its result.
pub proof fn result_of_a_lookup_stays(
    result: Result<Identity, WarpError>,
    reply: GetReply,
    after: GetIdentity,
)
    requires
        call_ensures(GetIdentity::next, (GetIdentity::Done(result), reply), after),
    ensures
        after == GetIdentity::Done(result),
{
}

/// Every lookup of a key alone, of a name alone, or of the own identity alone
/// begins with a request for just that; every other one is refused at once. Where
/// there is a cache it is asked first, but never for the own identity.
pub proof fn lookup_begins_with_what_is_named(id: Identifier, cached: bool, first: GetIdentity)
    requires
        call_ensures(GetIdentity::start, (id, cached), first),
    ensures
        id.username is None && !id.own ==> (id.public_key matches Some(key) ==> {
            &&& cached ==> first == (GetIdentity::QueryCache { by: LookupBy::PublicKey(key) })
            &&& !cached ==> first == (GetIdentity::Lookup { by: LookupBy::PublicKey(key) })
        }),
        id.public_key is None && !id.own ==> (id.username matches Some(name) ==> {
            &&& cached ==> first == (GetIdentity::QueryCache { by: LookupBy::Username(name) })
            &&& !cached ==> first == (GetIdentity::Lookup { by: LookupBy::Username(name) })
        }),
        id.own && id.public_key is None && id.username is None ==> first is OwnIdentity,
        first is Done <==> {
            ||| id.public_key is Some && id.username is Some
            ||| id.public_key is Some && id.own
            ||| id.username is Some && id.own
            ||| id.public_key is None && id.username is None && !id.own
        },
        first is Done ==> first == GetIdentity::Done(Err(WarpError::InvalidIdentifierCondition)),
{
}

/// The own identity can be had: whatever the store says of it is what a lookup of
/// it returns, with a cache or without.
pub proof fn own_identity_can_be_had(
    id: Identifier,
    cached: bool,
    first: GetIdentity,
    stored: Result<Identity, WarpError>,
    after: GetIdentity,
)
    requires
        call_ensures(Identifier::own, (), id),
        call_ensures(GetIdentity::start, (id, cached), first),
        call_ensures(GetIdentity::next, (first, GetReply::Stored(stored)), after),
    ensures
        after == GetIdentity::Done(stored),
{
}

/// An empty cache makes no difference: a lookup that finds nothing in it returns
/// what the same lookup returns where there is no cache.
pub proof fn empty_cache_makes_no_difference(
    id: Identifier,
    plain: GetIdentity,
    cached: GetIdentity,
    list: Vec<Data>,
    missed: GetIdentity,
    stored: Result<Identity, WarpError>,
    without: GetIdentity,
    with: GetIdentity,
)
    requires
        list@.len() == 0,
        call_ensures(GetIdentity::start, (id, false), plain),
        call_ensures(GetIdentity::next, (plain, GetReply::Stored(stored)), without),
        call_ensures(GetIdentity::start, (id, true), cached),
        call_ensures(
            GetIdentity::next,
            (cached, GetReply::Queried(QueryOutcome::Found(list))),
            missed,
        ),
        call_ensures(GetIdentity::next, (missed, GetReply::Stored(stored)), with),
    ensures
        with == without,
        with is Done,
{
}

/// A lookup by a good identifier is over, with an identity, after as many outcomes
/// as it can need, where each of them belongs to its request and none is an error.
pub proof fn lookup_succeeds_where_all_goes_well(
    id: Identifier,
    cached: bool,
    replies: Seq<GetReply>,
)
    requires
        lookup_key(id) is Some || names_own(id),
        forall|i: int|
            #![trigger replies[i]]
            0 <= i < replies.len() ==> {
                let state = lookup_after(lookup_start(id, cached), replies.take(i));
                ||| state is Done
                ||| lookup_answers(state, replies[i]) && !(replies[i] matches GetReply::Queried(
                    QueryOutcome::Rejected(_),
                )) && !(replies[i] matches GetReply::Decoded(Err(_))) && !(replies[i]
                    matches GetReply::Stored(Err(_)))
            },
    ensures
        !(lookup_after(lookup_start(id, cached), replies) matches GetIdentity::Done(Err(_))),
        replies.len() >= 2 ==> lookup_after(
            lookup_start(id, cached),
            replies,
        ) matches GetIdentity::Done(Ok(_)),
        lookup_left(lookup_after(lookup_start(id, cached), replies)) + replies.len() <= 2
            || lookup_after(lookup_start(id, cached), replies) is Done,
    decreases replies.len(),
{
    if replies.len() > 0 {
        let past = replies.drop_last();
        assert(replies.take(replies.len() - 1) =~= past);
        assert(replies[replies.len() - 1] == replies.last());
        assert forall|i: int|
            #![trigger past[i]]
            0 <= i < past.len() implies {
                let state = lookup_after(lookup_start(id, cached), past.take(i));
                ||| state is Done
                ||| lookup_answers(state, past[i]) && !(past[i] matches GetReply::Queried(
                    QueryOutcome::Rejected(_),
                )) && !(past[i] matches GetReply::Decoded(Err(_))) && !(past[i]
                    matches GetReply::Stored(Err(_)))
            } by {
            assert(past[i] == replies[i]);
            assert(past.take(i) =~= replies.take(i));
        }
        lookup_succeeds_where_all_goes_well(id, cached, past);
    }
}

} // verus!
