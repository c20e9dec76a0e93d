use serde_json::Value;
use warp_mp_ipfs::{
    Cid, CreateIdentity, CreateReply, Data, GetIdentity, GetReply, Graphics, Identifier, Identity,
    IdentityUpdate, LookupBy, PublicKey, QueryOutcome, UpdateIdentity, UpdateReply, WarpError,
};

const CID: &str = "bafyreibjo4xmgaevkgud7mbifn3dzp4v4lyaui4yvqp3f2bqwtxcjrdqg4";

fn user(name: &str, n: u8) -> Identity {
    Identity {
        username: String::from(name),
        public_key: PublicKey { bytes: vec![n; 4] },
        graphics: Graphics {
            profile_picture: String::from("picture"),
            profile_banner: String::from("banner"),
        },
        status_message: None,
    }
}

fn write(identity: &Identity) -> Value {
    let mut fields = serde_json::Map::new();
    fields.insert(String::from("username"), Value::from(identity.username.as_str()));
    fields.insert(String::from("public_key"), Value::from(identity.public_key.bytes.clone()));
    Value::Object(fields)
}

fn read(value: Value) -> Result<Identity, serde_json::Error> {
    let username: String = serde_json::from_value(value["username"].clone())?;
    let bytes: Vec<u8> = serde_json::from_value(value["public_key"].clone())?;
    Ok(Identity { username, public_key: PublicKey { bytes }, ..user("", 0) })
}

// A cache: what was added, in order.
struct Cache {
    held: Vec<Data>,
}

impl Cache {
    fn query(&self, by: &LookupBy) -> QueryOutcome {
        let wanted = match by {
            LookupBy::PublicKey(key) => Value::from(key.bytes.clone()),
            LookupBy::Username(name) => Value::from(name.as_str()),
        };
        let mut list = Vec::new();
        for data in &self.held {
            if data.payload.value[by.field()] == wanted {
                list.push(data.clone());
            }
        }
        QueryOutcome::Found(list)
    }

    fn create(&mut self, identity: Identity) -> PublicKey {
        let mut state =
            CreateIdentity::start(None, true).next(CreateReply::Created(Ok(identity)));
        loop {
            let reply = match &state {
                CreateIdentity::Encode { identity } => CreateReply::Encoded(Ok(write(identity))),
                CreateIdentity::AddData { data, .. } => {
                    self.held.push(data.clone());
                    CreateReply::Added(Ok(()))
                }
                _ => break,
            };
            state = state.next(reply);
        }
        match state {
            CreateIdentity::Done(done) => done.unwrap(),
            _ => panic!("the creation ends"),
        }
    }

    fn update(&mut self, own: Identity, name: &str) {
        let option = IdentityUpdate {
            username: Some(String::from(name)),
            graphics_picture: None,
            graphics_banner: None,
            status_message: None,
        };
        let mut state = UpdateIdentity::start(option, true).next(UpdateReply::Identity(Ok(own)));
        loop {
            let reply = match &state {
                UpdateIdentity::RetrieveCid { .. } => {
                    UpdateReply::Secret(Err(WarpError::any("absent")))
                }
                UpdateIdentity::PutDag { .. } => UpdateReply::Put(Cid::parse(CID)),
                UpdateIdentity::QueryCache { by, .. } => UpdateReply::Queried(self.query(by)),
                UpdateIdentity::Encode { identity, .. } => {
                    UpdateReply::Encoded(Ok(write(identity)))
                }
                UpdateIdentity::AddData { data } => {
                    self.held.push(data.clone());
                    UpdateReply::Finished(Ok(()))
                }
                UpdateIdentity::Done(_) => break,
                _ => UpdateReply::Finished(Ok(())),
            };
            state = state.next(reply);
        }
        assert!(matches!(state, UpdateIdentity::Done(Ok(()))));
    }

    // The store is never asked: it is a panic to need it.
    fn find(&self, id: Identifier) -> Identity {
        let state = GetIdentity::start(id, true);
        let state = match &state {
            GetIdentity::QueryCache { by } => {
                let outcome = self.query(by);
                state.next(GetReply::Queried(outcome))
            }
            _ => panic!("the cache is asked first"),
        };
        let reply = match &state {
            GetIdentity::Decode { data } => GetReply::Decoded(data.payload(read)),
            _ => panic!("the cache holds the identity"),
        };
        match state.next(reply) {
            GetIdentity::Done(done) => done.unwrap(),
            _ => panic!("the lookup ends"),
        }
    }
}

fn by_key(key: &PublicKey) -> Identifier {
    let key = PublicKey { bytes: key.bytes.clone() };
    Identifier { public_key: Some(key), username: None, own: false }
}

fn by_name(name: &str) -> Identifier {
    Identifier { public_key: None, username: Some(String::from(name)), own: false }
}

#[test]
fn created_identity_is_found_by_its_key() {
    let mut cache = Cache { held: Vec::new() };
    let ann = cache.create(user("ann", 1));
    let bob = cache.create(user("bob", 2));
    assert_eq!(cache.held.len(), 2);
    assert_eq!(cache.find(by_key(&ann)), user("ann", 1));
    assert_eq!(cache.find(by_key(&bob)), user("bob", 2));
    assert_eq!(cache.find(by_name("ann")), user("ann", 1));
}

#[test]
fn later_object_of_the_same_name_is_the_one_found() {
    let mut cache = Cache { held: Vec::new() };
    let first = cache.create(user("ann", 1));
    let second = cache.create(user("ann", 2));
    assert_eq!(cache.find(by_name("ann")).public_key, second);
    assert_eq!(cache.find(by_key(&first)).public_key, first);
}

#[test]
fn changed_identity_is_found_by_its_key() {
    let mut cache = Cache { held: Vec::new() };
    let key = cache.create(user("ann", 1));
    cache.update(user("ann", 1), "anna");
    assert_eq!(cache.held.len(), 2);
    assert_eq!(cache.held[1].id, cache.held[0].id);
    assert_eq!(cache.find(by_key(&key)), user("anna", 1));
    assert_eq!(cache.find(by_name("anna")), user("anna", 1));
}

#[test]
fn change_of_an_identity_that_is_not_cached_adds_nothing() {
    let mut cache = Cache { held: Vec::new() };
    cache.create(user("bob", 2));
    cache.update(user("ann", 1), "anna");
    assert_eq!(cache.held.len(), 1);
}
