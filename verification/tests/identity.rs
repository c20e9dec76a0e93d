use serde_json::Value;
use warp_mp_ipfs::update::IDENT_CID_KEY;
use warp_mp_ipfs::{
    Cid, CreateIdentity, CreateReply, Data, GetIdentity, GetReply, Graphics, Identifier, Identity,
    IdentityUpdate, LookupBy, Module, Payload, PublicKey, QueryOutcome, Timestamp, UpdateIdentity,
    UpdateReply, WarpError,
};

const OLD_CID: &str = "QmYwAPJzv5CZsnA625s3Xf2nemtYgPpHdWEz79ojWnPbdG";
const NEW_CID: &str = "bafyreibjo4xmgaevkgud7mbifn3dzp4v4lyaui4yvqp3f2bqwtxcjrdqg4";

fn key(n: u8) -> PublicKey {
    PublicKey { bytes: vec![n; 32] }
}

fn user(name: &str) -> Identity {
    Identity {
        username: String::from(name),
        public_key: key(9),
        graphics: Graphics {
            profile_picture: String::from("picture"),
            profile_banner: String::from("banner"),
        },
        status_message: None,
    }
}

fn object(id: u128, version: u32) -> Data {
    let mut data = Data::from_parts(
        id,
        Timestamp { secs: 10, nanos: 0 },
        Module::Accounts,
        Payload::new(Value::from("old")),
    );
    data.update_version(version);
    data
}

fn no_update() -> IdentityUpdate {
    IdentityUpdate {
        username: None,
        graphics_picture: None,
        graphics_banner: None,
        status_message: None,
    }
}

fn rename(name: &str) -> IdentityUpdate {
    IdentityUpdate { username: Some(String::from(name)), ..no_update() }
}

fn failure() -> WarpError {
    WarpError::any("failure")
}

fn is_failure(error: &WarpError) -> bool {
    matches!(error, WarpError::Any(text) if text == "failure")
}

fn json_error() -> serde_json::Error {
    serde_json::from_str::<u8>("no number").unwrap_err()
}

fn by_name(name: &str) -> Identifier {
    Identifier { public_key: None, username: Some(String::from(name)), own: false }
}

fn by_key(n: u8) -> Identifier {
    Identifier { public_key: Some(key(n)), username: None, own: false }
}

// Looking up.

#[test]
fn identifiers_that_name_one_thing() {
    assert!(matches!(
        GetIdentity::start(by_key(1), true),
        GetIdentity::QueryCache { by: LookupBy::PublicKey(found) } if found == key(1)
    ));
    assert!(matches!(
        GetIdentity::start(by_key(1), false),
        GetIdentity::Lookup { by: LookupBy::PublicKey(found) } if found == key(1)
    ));
    assert!(matches!(
        GetIdentity::start(by_name("ann"), true),
        GetIdentity::QueryCache { by: LookupBy::Username(name) } if name == "ann"
    ));
    assert!(matches!(
        GetIdentity::start(by_name("ann"), false),
        GetIdentity::Lookup { by: LookupBy::Username(name) } if name == "ann"
    ));
    assert!(matches!(GetIdentity::start(Identifier::own(), true), GetIdentity::OwnIdentity));
}

#[test]
fn identifiers_that_name_nothing_or_more() {
    let parts = [
        (None, None, false),
        (Some(1), None, true),
        (None, Some("ann"), true),
        (Some(1), Some("ann"), false),
        (Some(1), Some("ann"), true),
    ];
    for (public_key, username, own) in parts {
        let id = Identifier {
            public_key: public_key.map(key),
            username: username.map(String::from),
            own,
        };
        assert!(matches!(
            GetIdentity::start(id, true),
            GetIdentity::Done(Err(WarpError::InvalidIdentifierCondition))
        ));
    }
}

#[test]
fn fields_that_are_compared() {
    assert_eq!(LookupBy::PublicKey(key(1)).field(), "public_key");
    assert_eq!(LookupBy::Username(String::from("ann")).field(), "username");
}

#[test]
fn latest_cached_object_is_read() {
    let list = vec![object(1, 0), object(2, 1)];
    let state = GetIdentity::start(by_name("ann"), true)
        .next(GetReply::Queried(QueryOutcome::Found(list)));
    assert!(matches!(&state, GetIdentity::Decode { data } if data.id == 2));
    let state = state.next(GetReply::Decoded(Ok(user("ann"))));
    assert!(matches!(state, GetIdentity::Done(Ok(identity)) if identity == user("ann")));
}

#[test]
fn cached_object_that_cannot_be_read_is_an_error() {
    let state = GetIdentity::start(by_name("ann"), true)
        .next(GetReply::Queried(QueryOutcome::Found(vec![object(1, 0)])))
        .next(GetReply::Stored(Ok(user("ann"))));
    assert!(matches!(state, GetIdentity::Decode { .. }));
    let state = state.next(GetReply::Decoded(Err(failure())));
    assert!(matches!(state, GetIdentity::Done(Err(error)) if is_failure(&error)));
}

#[test]
fn store_is_asked_where_the_cache_has_nothing() {
    for outcome in [QueryOutcome::Found(vec![]), QueryOutcome::Failed(failure())] {
        let state = GetIdentity::start(by_key(4), true).next(GetReply::Queried(outcome));
        assert!(matches!(
            &state,
            GetIdentity::Lookup { by: LookupBy::PublicKey(found) } if *found == key(4)
        ));
        let state = state.next(GetReply::Stored(Ok(user("ann"))));
        assert!(matches!(state, GetIdentity::Done(Ok(_))));
    }
}

#[test]
fn query_that_cannot_be_put_ends_the_lookup() {
    let state = GetIdentity::start(by_key(4), true)
        .next(GetReply::Queried(QueryOutcome::Rejected(failure())));
    assert!(matches!(state, GetIdentity::Done(Err(error)) if is_failure(&error)));
}

#[test]
fn own_identity_comes_from_the_store() {
    let state = GetIdentity::start(Identifier::own(), true).next(GetReply::Stored(Err(failure())));
    assert!(matches!(state, GetIdentity::Done(Err(error)) if is_failure(&error)));
}

// Creating.

#[test]
fn created_without_a_cache() {
    let state = CreateIdentity::start(Some("ann"), false);
    assert!(matches!(
        &state,
        CreateIdentity::Create { username: Some(name), cached: false } if name == "ann"
    ));
    let state = state.next(CreateReply::Created(Ok(user("ann"))));
    assert!(matches!(state, CreateIdentity::Done(Ok(found)) if found == key(9)));
}

#[test]
fn created_with_a_cache() {
    let state = CreateIdentity::start(None, true).next(CreateReply::Created(Ok(user("ann"))));
    assert!(matches!(&state, CreateIdentity::Encode { identity } if *identity == user("ann")));
    let state = state.next(CreateReply::Encoded(Ok(Value::from("ann"))));
    match &state {
        CreateIdentity::AddData { public_key, data } => {
            assert_eq!(*public_key, key(9));
            assert_eq!(data.module, Module::Accounts);
            assert_eq!(data.version, 0);
            assert_eq!(data.payload.value, Value::from("ann"));
        }
        _ => panic!("the identity goes into the cache"),
    }
    let state = state.next(CreateReply::Added(Ok(())));
    assert!(matches!(state, CreateIdentity::Done(Ok(found)) if found == key(9)));
}

#[test]
fn creation_fails_with_its_steps() {
    let state = CreateIdentity::start(None, true).next(CreateReply::Created(Err(failure())));
    assert!(matches!(state, CreateIdentity::Done(Err(error)) if is_failure(&error)));
    let state = CreateIdentity::start(None, true)
        .next(CreateReply::Created(Ok(user("ann"))))
        .next(CreateReply::Encoded(Err(json_error())));
    assert!(matches!(state, CreateIdentity::Done(Err(WarpError::SerdeJson(_)))));
    let state = CreateIdentity::start(None, true)
        .next(CreateReply::Created(Ok(user("ann"))))
        .next(CreateReply::Encoded(Ok(Value::Null)))
        .next(CreateReply::Added(Err(failure())));
    assert!(matches!(state, CreateIdentity::Done(Err(error)) if is_failure(&error)));
}

// Changing.

fn accepted(option: IdentityUpdate, cached: bool) -> UpdateIdentity {
    UpdateIdentity::start(option, cached).next(UpdateReply::Identity(Ok(user("ann"))))
}

fn stored(cached: bool) -> UpdateIdentity {
    accepted(rename("bob"), cached)
        .next(UpdateReply::Secret(Err(failure())))
        .next(UpdateReply::Put(Cid::parse(NEW_CID)))
        .next(UpdateReply::Finished(Ok(())))
        .next(UpdateReply::Finished(Ok(())))
}

#[test]
fn identifier_is_kept_under_its_name() {
    assert_eq!(IDENT_CID_KEY, "ident_cid");
}

#[test]
fn each_field_can_be_changed() {
    let mut identity = user("ann");
    identity.apply(rename("bob")).unwrap();
    assert_eq!(identity, Identity { username: String::from("bob"), ..user("ann") });

    let mut identity = user("ann");
    let option = IdentityUpdate { graphics_picture: Some(String::from("new")), ..no_update() };
    identity.apply(option).unwrap();
    assert_eq!(identity.graphics.profile_picture, "new");
    assert_eq!(identity.graphics.profile_banner, "banner");
    assert_eq!(identity.username, "ann");

    let mut identity = user("ann");
    let option = IdentityUpdate { graphics_banner: Some(String::from("new")), ..no_update() };
    identity.apply(option).unwrap();
    assert_eq!(identity.graphics.profile_picture, "picture");
    assert_eq!(identity.graphics.profile_banner, "new");

    let mut identity = user("ann");
    let option =
        IdentityUpdate { status_message: Some(Some(String::from("away"))), ..no_update() };
    identity.apply(option).unwrap();
    assert_eq!(identity.status_message, Some(String::from("away")));
    let option = IdentityUpdate { status_message: Some(None), ..no_update() };
    identity.apply(option).unwrap();
    assert_eq!(identity, user("ann"));
}

#[test]
fn change_of_no_field_or_of_two_is_refused() {
    let two = IdentityUpdate { status_message: Some(None), ..rename("bob") };
    for option in [no_update(), two] {
        let state = accepted(option, true);
        assert!(matches!(state, UpdateIdentity::Done(Err(WarpError::CannotUpdateIdentity))));
    }
    let mut identity = user("ann");
    assert!(matches!(identity.apply(no_update()), Err(WarpError::CannotUpdateIdentity)));
    assert_eq!(identity, user("ann"));
}

#[test]
fn own_identity_that_is_missing_ends_the_change() {
    let state =
        UpdateIdentity::start(no_update(), true).next(UpdateReply::Identity(Err(failure())));
    assert!(matches!(state, UpdateIdentity::Done(Err(error)) if is_failure(&error)));
}

#[test]
fn old_content_is_unpinned_first() {
    let state =
        accepted(rename("bob"), true).next(UpdateReply::Secret(Ok(String::from(OLD_CID))));
    assert!(matches!(
        &state,
        UpdateIdentity::RemovePin { cid, change } if cid.as_text() == OLD_CID
            && change.identity.username == "bob" && change.old_username == "ann" && change.cached
    ));
    let state = state.next(UpdateReply::Finished(Ok(())));
    assert!(matches!(state, UpdateIdentity::PutDag { .. }));
}

#[test]
fn unpinning_can_fail() {
    let state = accepted(rename("bob"), true).next(UpdateReply::Secret(Ok(String::from("?"))));
    assert!(matches!(state, UpdateIdentity::Done(Err(WarpError::Cid(_)))));
    let state = accepted(rename("bob"), true)
        .next(UpdateReply::Secret(Ok(String::from(OLD_CID))))
        .next(UpdateReply::Finished(Err(failure())));
    assert!(matches!(state, UpdateIdentity::Done(Err(error)) if is_failure(&error)));
}

#[test]
fn new_content_is_put_pinned_and_stored() {
    let state = accepted(rename("bob"), false).next(UpdateReply::Secret(Err(failure())));
    assert!(matches!(
        &state,
        UpdateIdentity::PutDag { change } if change.identity.username == "bob"
    ));
    let state = state.next(UpdateReply::Put(Cid::parse(NEW_CID)));
    assert!(matches!(
        &state,
        UpdateIdentity::InsertPin { cid, .. } if cid.as_text() == NEW_CID
    ));
    let state = state.next(UpdateReply::Finished(Ok(())));
    assert!(matches!(&state, UpdateIdentity::StoreCid { cid, .. } if cid.as_text() == NEW_CID));
    let state = state.next(UpdateReply::Finished(Ok(())));
    assert!(matches!(state, UpdateIdentity::UpdateStore));
    let state = state.next(UpdateReply::Finished(Ok(())));
    assert!(matches!(state, UpdateIdentity::Done(Ok(()))));
}

#[test]
fn next_change_unpins_what_was_stored() {
    let first = accepted(rename("bob"), false)
        .next(UpdateReply::Secret(Err(failure())))
        .next(UpdateReply::Put(Cid::parse(NEW_CID)))
        .next(UpdateReply::Finished(Ok(())));
    let text = match &first {
        UpdateIdentity::StoreCid { cid, .. } => cid.as_text().to_string(),
        _ => panic!("the identifier has to be stored"),
    };
    let second = accepted(rename("cid"), false).next(UpdateReply::Secret(Ok(text)));
    assert!(matches!(
        second,
        UpdateIdentity::RemovePin { cid, .. } if cid == Cid::parse(NEW_CID).unwrap()
    ));
}

#[test]
fn putting_pinning_and_storing_can_fail() {
    let put = accepted(rename("bob"), true).next(UpdateReply::Secret(Err(failure())));
    let state = put.next(UpdateReply::Put(Err(failure())));
    assert!(matches!(state, UpdateIdentity::Done(Err(error)) if is_failure(&error)));
    let pin = accepted(rename("bob"), true)
        .next(UpdateReply::Secret(Err(failure())))
        .next(UpdateReply::Put(Cid::parse(NEW_CID)));
    let state = pin.next(UpdateReply::Finished(Err(failure())));
    assert!(matches!(state, UpdateIdentity::Done(Err(error)) if is_failure(&error)));
    let store = accepted(rename("bob"), true)
        .next(UpdateReply::Secret(Err(failure())))
        .next(UpdateReply::Put(Cid::parse(NEW_CID)))
        .next(UpdateReply::Finished(Ok(())));
    let state = store.next(UpdateReply::Finished(Err(failure())));
    assert!(matches!(state, UpdateIdentity::Done(Err(error)) if is_failure(&error)));
}

#[test]
fn cached_object_gets_the_new_payload() {
    let state = stored(true);
    assert!(matches!(
        &state,
        UpdateIdentity::QueryCache { by: LookupBy::Username(name), identity }
            if name == "ann" && identity.username == "bob"
    ));
    let list = vec![object(1, 0), object(2, 7)];
    let state = state.next(UpdateReply::Queried(QueryOutcome::Found(list)));
    assert!(matches!(
        &state,
        UpdateIdentity::Encode { entry: Some(data), identity }
            if data.id == 2 && identity.username == "bob"
    ));
    let state = state.next(UpdateReply::Encoded(Ok(Value::from("bob"))));
    let mut expected = object(2, 7);
    expected.payload = Payload::new(Value::from("bob"));
    assert!(matches!(&state, UpdateIdentity::AddData { data } if *data == expected));
    let state = state.next(UpdateReply::Finished(Ok(())));
    assert!(matches!(state, UpdateIdentity::UpdateStore));
}

#[test]
fn empty_cache_is_left_alone() {
    let state = stored(true).next(UpdateReply::Queried(QueryOutcome::Found(vec![])));
    assert!(matches!(state, UpdateIdentity::UpdateStore));
}

#[test]
fn failing_cache_gets_a_new_object() {
    let state = stored(true).next(UpdateReply::Queried(QueryOutcome::Failed(failure())));
    assert!(matches!(&state, UpdateIdentity::Encode { entry: None, .. }));
    let state = state.next(UpdateReply::Encoded(Ok(Value::from("bob"))));
    match state {
        UpdateIdentity::AddData { data } => {
            assert_eq!(data.module, Module::Accounts);
            assert_eq!(data.version, 0);
            assert_eq!(data.size, 0);
            assert_eq!(data.payload.value, Value::from("bob"));
        }
        _ => panic!("the identity goes into the cache"),
    }
}

#[test]
fn cache_and_store_can_fail() {
    let state = stored(true).next(UpdateReply::Queried(QueryOutcome::Rejected(failure())));
    assert!(matches!(state, UpdateIdentity::Done(Err(error)) if is_failure(&error)));
    let encode =
        || stored(true).next(UpdateReply::Queried(QueryOutcome::Found(vec![object(1, 0)])));
    let state = encode().next(UpdateReply::Encoded(Err(json_error())));
    assert!(matches!(state, UpdateIdentity::Done(Err(WarpError::SerdeJson(_)))));
    let state = encode()
        .next(UpdateReply::Encoded(Ok(Value::Null)))
        .next(UpdateReply::Finished(Err(failure())));
    assert!(matches!(state, UpdateIdentity::Done(Err(error)) if is_failure(&error)));
    let state = stored(false).next(UpdateReply::Finished(Err(failure())));
    assert!(matches!(state, UpdateIdentity::Done(Err(error)) if is_failure(&error)));
}

#[test]
fn foreign_outcomes_move_nothing() {
    let state = GetIdentity::start(by_key(1), true).next(GetReply::Stored(Ok(user("ann"))));
    assert!(matches!(state, GetIdentity::QueryCache { .. }));
    let state = CreateIdentity::start(None, true).next(CreateReply::Added(Ok(())));
    assert!(matches!(state, CreateIdentity::Create { .. }));
    let state = UpdateIdentity::start(rename("bob"), true).next(UpdateReply::Finished(Ok(())));
    assert!(matches!(state, UpdateIdentity::OwnIdentity { .. }));
    let state = CreateIdentity::start(None, false)
        .next(CreateReply::Created(Ok(user("ann"))))
        .next(CreateReply::Created(Ok(user("bob"))));
    assert!(matches!(state, CreateIdentity::Done(Ok(_))));
}

#[test]
fn longest_change_makes_ten_requests() {
    let mut state = UpdateIdentity::start(rename("bob"), true);
    let mut requests = 0;
    loop {
        let reply = match &state {
            UpdateIdentity::OwnIdentity { .. } => UpdateReply::Identity(Ok(user("ann"))),
            UpdateIdentity::RetrieveCid { .. } => UpdateReply::Secret(Ok(String::from(OLD_CID))),
            UpdateIdentity::PutDag { .. } => UpdateReply::Put(Cid::parse(NEW_CID)),
            UpdateIdentity::QueryCache { .. } => {
                UpdateReply::Queried(QueryOutcome::Found(vec![object(1, 0)]))
            }
            UpdateIdentity::Encode { .. } => UpdateReply::Encoded(Ok(Value::Null)),
            UpdateIdentity::Done(_) => break,
            _ => UpdateReply::Finished(Ok(())),
        };
        requests += 1;
        state = state.next(reply);
    }
    assert_eq!(requests, 10);
    assert!(matches!(state, UpdateIdentity::Done(Ok(()))));
}
