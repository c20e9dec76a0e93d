//! How an identity is created.

use serde_json::Value;
use vstd::prelude::*;

use crate::data::{is_drawn_id, Data};
use crate::error::WarpError;
use crate::identity::{Identity, PublicKey};
use crate::module::Module;

verus! {

/// A creation, by the request that is to be carried out next.
pub enum CreateIdentity {
    /// Create an identity in the identity store.
    Create { username: Option<String>, cached: bool },
    /// Turn `identity` into a JSON value.
    Encode { identity: Identity },
    /// Add `data` to the accounts of the cache.
    AddData { public_key: PublicKey, data: Data },
    /// Nothing is left to do.
    Done(Result<PublicKey, WarpError>),
}

/// The outcome of a request.
pub enum CreateReply {
    /// What the identity store created.
    Created(Result<Identity, WarpError>),
    /// What the identity was turned into.
    Encoded(Result<Value, serde_json::Error>),
    /// That the object was added.
    Added(Result<(), WarpError>),
}

/// What follows a request and its outcome: the new identity goes into the cache
/// where there is one. An outcome that does not belong to the request changes
/// nothing.
pub open spec fn create_step(
    before: CreateIdentity,
    reply: CreateReply,
    after: CreateIdentity,
) -> bool {
    match (before, reply) {
        (CreateIdentity::Create { cached, .. }, CreateReply::Created(Ok(identity))) => after
            == if cached {
            CreateIdentity::Encode { identity }
        } else {
            CreateIdentity::Done(Ok(identity.public_key))
        },
        (CreateIdentity::Create { .. }, CreateReply::Created(Err(error))) => after
            == CreateIdentity::Done(Err(error)),
        (CreateIdentity::Encode { identity }, CreateReply::Encoded(Ok(value))) => {
            &&& after matches CreateIdentity::AddData { public_key, data }
            &&& public_key == identity.public_key
            &&& data.is_fresh(Module::Accounts)
            &&& data.payload.value == value
        },
        (CreateIdentity::Encode { .. }, CreateReply::Encoded(Err(error))) => after
            == CreateIdentity::Done(Err(WarpError::SerdeJson(error))),
        (CreateIdentity::AddData { public_key, .. }, CreateReply::Added(Ok(_))) => after
            == CreateIdentity::Done(Ok(public_key)),
        (CreateIdentity::AddData { .. }, CreateReply::Added(Err(error))) => after
            == CreateIdentity::Done(Err(error)),
        (before, _) => after == before,
    }
}

impl CreateIdentity {
    /// Begins a creation. `cached` says whether there is a cache.
    pub fn start(username: Option<&str>, cached: bool) -> (r: CreateIdentity)
        ensures
            r matches CreateIdentity::Create { username: asked, cached: same } && same == cached
                && match username {
                Some(name) => asked matches Some(text) && text@ == name@,
                None => asked is None,
            },
    {
        let username = match username {
            Some(name) => Some(name.to_string()),
            None => None,
        };
        CreateIdentity::Create { username, cached }
    }

    /// Takes the outcome of the request.
    pub fn next(self, reply: CreateReply) -> (r: CreateIdentity)
        ensures
            create_step(self, reply, r),
    {
        match (self, reply) {
            (CreateIdentity::Create { cached, .. }, CreateReply::Created(Ok(identity))) => {
                if cached {
                    CreateIdentity::Encode { identity }
                } else {
                    CreateIdentity::Done(Ok(identity.public_key))
                }
            },
            (
                CreateIdentity::Create { .. },
                CreateReply::Created(Err(error)),
            ) => CreateIdentity::Done(Err(error)),
            (CreateIdentity::Encode { identity }, CreateReply::Encoded(value)) => {
                match Data::from_result(&Module::Accounts, value) {
                    Ok(data) => CreateIdentity::AddData { public_key: identity.public_key, data },
                    Err(error) => CreateIdentity::Done(Err(error)),
                }
            },
            (
                CreateIdentity::AddData { public_key, .. },
                CreateReply::Added(Ok(_)),
            ) => CreateIdentity::Done(Ok(public_key)),
            (CreateIdentity::AddData { .. }, CreateReply::Added(Err(error))) => CreateIdentity::Done(
                Err(error),
            ),
            (before, _) => before,
        }
    }
}

/// A course that a creation can take: by the outcomes `replies`, through `states`.
pub open spec fn create_run(
    cached: bool,
    replies: Seq<CreateReply>,
    states: Seq<CreateIdentity>,
) -> bool {
    &&& states.len() == replies.len() + 1
    &&& states[0] matches CreateIdentity::Create { cached: same, .. } && same == cached
    &&& forall|i: int|
        0 <= i < replies.len() ==> create_step(states[i], #[trigger] replies[i], states[i + 1])
}

/// Whether, before the point `i`, the store created `identity`.
pub open spec fn was_created(
    replies: Seq<CreateReply>,
    states: Seq<CreateIdentity>,
    i: int,
    identity: Identity,
) -> bool {
    exists|k: int|
        0 <= k < i && states[k] is Create && #[trigger] replies[k] == CreateReply::Created(
            Ok(identity),
        )
}

/// Whether, before the point `i`, `identity` was turned into `value`.
pub open spec fn was_encoded(
    replies: Seq<CreateReply>,
    states: Seq<CreateIdentity>,
    i: int,
    identity: Identity,
    value: Value,
) -> bool {
    exists|k: int|
        0 <= k < i && states[k] == (CreateIdentity::Encode { identity }) && #[trigger] replies[k]
            == CreateReply::Encoded(Ok(value))
}

/// What a cache that held `before` holds at the point `i`: in the order in which
/// they were added, what it held and what it took on the way.
pub open spec fn held_after(
    before: Seq<Data>,
    replies: Seq<CreateReply>,
    states: Seq<CreateIdentity>,
    i: int,
) -> Seq<Data>
    decreases i,
{
    if i <= 0 {
        before
    } else {
        let past = held_after(before, replies, states, i - 1);
        match (states[i - 1], replies[i - 1]) {
            (CreateIdentity::AddData { data, .. }, CreateReply::Added(Ok(_))) => past.push(data),
            _ => past,
        }
    }
}

/// An object that was made at the point `i` for `identity`, which the store had
/// created: a new one of the accounts, with what the identity was turned into.
pub open spec fn is_entry(
    replies: Seq<CreateReply>,
    states: Seq<CreateIdentity>,
    i: int,
    identity: Identity,
    data: Data,
) -> bool {
    &&& was_created(replies, states, i, identity)
    &&& was_encoded(replies, states, i, identity, data.payload.value)
    &&& data.is_fresh(Module::Accounts)
}

/// On every course, the key that a creation returns is that of the identity that
/// the store created. Where there is a cache, a creation that ends well has added
/// one object to it, which carries what that identity was turned into; before
/// that, and where there is none, nothing is added.
pub proof fn create_returns_the_created_key(
    cached: bool,
    before: Seq<Data>,
    replies: Seq<CreateReply>,
    states: Seq<CreateIdentity>,
    i: int,
)
    requires
        create_run(cached, replies, states),
        0 <= i < states.len(),
    ensures
        match states[i] {
            CreateIdentity::Create { cached: same, .. } => {
                &&& same == cached
                &&& held_after(before, replies, states, i) == before
            },
            CreateIdentity::Encode { identity } => {
                &&& cached
                &&& was_created(replies, states, i, identity)
                &&& held_after(before, replies, states, i) == before
            },
            CreateIdentity::AddData { public_key, data } => {
                &&& cached
                &&& exists|identity: Identity|
                    #[trigger] is_entry(replies, states, i, identity, data) && identity.public_key
                        == public_key
                &&& held_after(before, replies, states, i) == before
            },
            CreateIdentity::Done(Ok(public_key)) => if cached {
                exists|identity: Identity, data: Data|
                    {
                        &&& #[trigger] is_entry(replies, states, i, identity, data)
                        &&& identity.public_key == public_key
                        &&& held_after(before, replies, states, i) == before.push(data)
                    }
            } else {
                &&& exists|identity: Identity|
                    #[trigger] was_created(replies, states, i, identity) && identity.public_key
                        == public_key
                &&& held_after(before, replies, states, i) == before
            },
            CreateIdentity::Done(Err(_)) => held_after(before, replies, states, i) == before,
        },
    decreases i,
{
    if i > 0 {
        create_returns_the_created_key(cached, before, replies, states, i - 1);
        assert(create_step(states[i - 1], replies[i - 1], states[i]));
        match states[i - 1] {
            CreateIdentity::Create { .. } => {
                if let CreateReply::Created(Ok(identity)) = replies[i - 1] {
                    assert(was_created(replies, states, i, identity));
                }
            },
            CreateIdentity::Encode { identity } => {
                if let CreateIdentity::AddData { data, .. } = states[i] {
                    assert(is_entry(replies, states, i, identity, data));
                }
            },
            CreateIdentity::AddData { public_key, data } => {
                let identity = choose|identity: Identity|
                    #[trigger] is_entry(replies, states, i - 1, identity, data)
                        && identity.public_key == public_key;
                assert(is_entry(replies, states, i, identity, data));
            },
            CreateIdentity::Done(Ok(public_key)) => {
                if cached {
                    let (identity, data) = choose|identity: Identity, data: Data|
                        {
                            &&& #[trigger] is_entry(replies, states, i - 1, identity, data)
                            &&& identity.public_key == public_key
                            &&& held_after(before, replies, states, i - 1) == before.push(data)
                        };
                    assert(is_entry(replies, states, i, identity, data));
                } else {
                    let identity = choose|identity: Identity|
                        #[trigger] was_created(replies, states, i - 1, identity)
                            && identity.public_key == public_key;
                    assert(was_created(replies, states, i, identity));
                }
            },
            CreateIdentity::Done(Err(_)) => {},
        }
    }
}

/// Whether an outcome belongs to the request.
pub open spec fn create_answers(state: CreateIdentity, reply: CreateReply) -> bool {
    match state {
        CreateIdentity::Create { .. } => reply is Created,
        CreateIdentity::Encode { .. } => reply is Encoded,
        CreateIdentity::AddData { .. } => reply is Added,
        CreateIdentity::Done(_) => false,
    }
}

/// How many requests a creation can still make.
pub open spec fn create_left(state: CreateIdentity) -> nat {
    match state {
        CreateIdentity::Create { .. } => 3,
        CreateIdentity::Encode { .. } => 2,
        CreateIdentity::AddData { .. } => 1,
        CreateIdentity::Done(_) => 0,
    }
}

/// A creation comes to an end: each outcome that belongs to its request brings it
/// nearer, and no other moves it.
pub proof fn create_ends(before: CreateIdentity, reply: CreateReply, after: CreateIdentity)
    requires
        create_step(before, reply, after),
    ensures
        create_answers(before, reply) ==> create_left(after) < create_left(before),
        !create_answers(before, reply) ==> after == before,
        create_left(before) == 0 <==> before is Done,
{
}

/// The error that an outcome brings, if it brings one.
pub open spec fn create_error(reply: CreateReply) -> Option<WarpError> {
    match reply {
        CreateReply::Created(Err(error)) => Some(error),
        CreateReply::Encoded(Err(error)) => Some(WarpError::SerdeJson(error)),
        CreateReply::Added(Err(error)) => Some(error),
        _ => None,
    }
}

/// A creation fails exactly where an outcome that belongs to its request brings an
/// error, and with that error.
pub proof fn creation_fails_with_its_services(
    before: CreateIdentity,
    reply: CreateReply,
    after: CreateIdentity,
)
    requires
        create_answers(before, reply),
        call_ensures(CreateIdentity::next, (before, reply), after),
    ensures
        create_error(reply) matches Some(error) ==> after == CreateIdentity::Done(Err(error)),
        create_error(reply) is None ==> !(after matches CreateIdentity::Done(Err(_))),
{
}

/// Success follows from success: on every course, with a chosen name or without
/// one, on which each outcome belongs to its request and none is an error, the
/// creation does not fail, and after as many outcomes as it can need it has
/// succeeded.
pub proof fn creation_succeeds_where_all_goes_well(
    cached: bool,
    replies: Seq<CreateReply>,
    states: Seq<CreateIdentity>,
    i: int,
)
    requires
        create_run(cached, replies, states),
        0 <= i < states.len(),
        forall|k: int|
            0 <= k < replies.len() ==> create_error(#[trigger] replies[k]) is None && (states[k]
                is Done || create_answers(states[k], replies[k])),
    ensures
        !(states[i] matches CreateIdentity::Done(Err(_))),
        i >= 3 ==> states[i] matches CreateIdentity::Done(Ok(_)),
        create_left(states[i]) + i <= 3 || states[i] is Done,
    decreases i,
{
    if i > 0 {
        creation_succeeds_where_all_goes_well(cached, replies, states, i - 1);
        assert(create_step(states[i - 1], replies[i - 1], states[i]));
    }
}

/// A creation that failed did so with an error that an outcome brought.
pub proof fn creation_invents_no_error(
    cached: bool,
    replies: Seq<CreateReply>,
    states: Seq<CreateIdentity>,
    i: int,
)
    requires
        create_run(cached, replies, states),
        0 <= i < states.len(),
    ensures
        states[i] matches CreateIdentity::Done(Err(error)) ==> exists|k: int|
            0 <= k < i && create_error(#[trigger] replies[k]) == Some(error),
    decreases i,
{
    if i > 0 {
        creation_invents_no_error(cached, replies, states, i - 1);
        assert(create_step(states[i - 1], replies[i - 1], states[i]));
    }
}

/// What is created is what is returned: where the store creates an identity, and
/// it is encoded and added, the creation returns the key of that identity, and
/// what was added is a new object of the accounts that carries what the identity
/// was turned into. The name that was asked for makes no difference to that.
pub proof fn created_identity_is_encoded_added_and_returned(
    username: Option<String>,
    identity: Identity,
    encoding: CreateIdentity,
    value: Value,
    adding: CreateIdentity,
    done: CreateIdentity,
)
    requires
        call_ensures(
            CreateIdentity::next,
            (
                CreateIdentity::Create { username, cached: true },
                CreateReply::Created(Ok(identity)),
            ),
            encoding,
        ),
        call_ensures(
            CreateIdentity::next,
            (encoding, CreateReply::Encoded(Ok(value))),
            adding,
        ),
        call_ensures(CreateIdentity::next, (adding, CreateReply::Added(Ok(()))), done),
    ensures
        encoding matches CreateIdentity::Encode { identity: same } && same == identity,
        adding matches CreateIdentity::AddData { public_key, data } && {
            &&& public_key == identity.public_key
            &&& data.payload.value == value
            &&& data.module == Module::Accounts
            &&& data.timestamp.is_reading()
            &&& is_drawn_id(data.id)
            &&& data.version == 0
            &&& data.size == 0
        },
        done == CreateIdentity::Done(Ok(identity.public_key)),
{
}

/// Without a cache, the creation is over once the store has created the identity,
/// and returns its key.
pub proof fn uncached_creation_is_that_of_the_store(
    username: Option<String>,
    identity: Identity,
    done: CreateIdentity,
)
    requires
        call_ensures(
            CreateIdentity::next,
            (
                CreateIdentity::Create { username, cached: false },
                CreateReply::Created(Ok(identity)),
            ),
            done,
        ),
    ensures
        done == CreateIdentity::Done(Ok(identity.public_key)),
{
}

/// A creation begins by asking the store for an identity of the name that was
/// chosen, or of none where none was.
pub proof fn creation_asks_for_the_chosen_name(
    username: Option<&str>,
    cached: bool,
    first: CreateIdentity,
)
    requires
        call_ensures(CreateIdentity::start, (username, cached), first),
    ensures
        first matches CreateIdentity::Create { username: asked, cached: same } && {
            &&& same == cached
            &&& asked is Some <==> username is Some
            &&& username matches Some(name) ==> asked->0@ == name@
        },
{
}

} // verus!
