//! The account of a user.

use std::path::PathBuf;
use vstd::prelude::*;

use crate::config::{clone_path, Config};
use crate::create::CreateIdentity;
use crate::error::WarpError;
use crate::extension::Extension;
use crate::identity::{Identifier, IdentityUpdate, PublicKey};
use crate::keypair::Keypair;
use crate::lookup::{lookup_start, GetIdentity};
use crate::module::Module;
use crate::startup::{
    startup_keeps_what_was_given, startup_run, Launch, Startup, StartupReply,
};
use crate::update::UpdateIdentity;

verus! {

/// The services around an account, which the library hands on and does not look
/// into.
pub trait Backend {
    /// The key store.
    type Tesseract;

    /// The cache.
    type Cache;

    /// The node.
    type Ipfs;

    /// The store of friends and requests.
    type FriendsStore;

    /// The store of identities.
    type IdentityStore;
}

/// An account on an IPFS node.
pub struct IpfsIdentity<B: Backend> {
    /// Where the repository of the node is.
    pub path: PathBuf,
    /// The cache, if there is one.
    pub cache: Option<B::Cache>,
    /// The key store.
    pub tesseract: B::Tesseract,
    /// The node.
    pub ipfs: B::Ipfs,
    /// Whether the repository goes when the account goes.
    pub temp: bool,
    /// The store of friends and requests.
    pub friend_store: B::FriendsStore,
    /// The store of identities.
    pub identity_store: B::IdentityStore,
}

impl<B: Backend> Clone for IpfsIdentity<B> where
    B::Tesseract: Clone,
    B::Cache: Clone,
    B::Ipfs: Clone,
    B::FriendsStore: Clone,
    B::IdentityStore: Clone,
 {
    /// Another handle of the account, with clones of the services.
    fn clone(&self) -> (r: IpfsIdentity<B>)
        ensures
            r.path == self.path,
            r.temp == self.temp,
            match (self.cache, r.cache) {
                (Some(cache), Some(copy)) => cloned(cache, copy),
                (None, None) => true,
                _ => false,
            },
            cloned(self.tesseract, r.tesseract),
            cloned(self.ipfs, r.ipfs),
            cloned(self.friend_store, r.friend_store),
            cloned(self.identity_store, r.identity_store),
    {
        IpfsIdentity {
            path: clone_path(&self.path),
            cache: match &self.cache {
                Some(cache) => Some(cache.clone()),
                None => None,
            },
            tesseract: self.tesseract.clone(),
            ipfs: self.ipfs.clone(),
            temp: self.temp,
            friend_store: self.friend_store.clone(),
            identity_store: self.identity_store.clone(),
        }
    }
}

/// Whether `public_key` is among `friends`.
pub open spec fn is_friend(friends: Seq<PublicKey>, public_key: PublicKey) -> bool {
    exists|i: int| 0 <= i < friends.len() && (#[trigger] friends[i]).bytes@ == public_key.bytes@
}

fn contains_key(friends: &Vec<PublicKey>, public_key: &PublicKey) -> (r: bool)
    ensures
        r == is_friend(friends@, *public_key),
{
    let mut i: usize = 0;
    while i < friends.len()
        invariant
            i <= friends.len(),
            forall|j: int| 0 <= j < i ==> (#[trigger] friends@[j]).bytes@ != public_key.bytes@,
        decreases friends.len() - i,
    {
        if friends[i].same(public_key) {
            assert(friends@[i as int].bytes@ == public_key.bytes@);
            return true;
        }
        i += 1;
    }
    false
}

impl<B: Backend> IpfsIdentity<B> {
    /// The directory that is to be removed when the account goes: that of the
    /// repository, where it is a temporary one.
    pub open spec fn spec_leftover_dir(self) -> Option<PathBuf> {
        if self.temp {
            Some(self.path)
        } else {
            None
        }
    }

    /// Starts an account whose repository goes with it. No path may be configured
    /// for it.
    pub fn temporary(
        config: Option<Config>,
        tesseract: B::Tesseract,
        cache: Option<B::Cache>,
    ) -> (r: Result<Startup<B>, WarpError>)
        ensures
            match config {
                Some(config) => if config.path is Some {
                    r matches Err(error) && error.says("Path cannot be set"@)
                } else {
                    r == Ok::<Startup<B>, WarpError>(
                        Startup::RetrieveKeypair { launch: Launch { config, tesseract, cache } },
                    )
                },
                None => r matches Ok(Startup::RetrieveKeypair { launch })
                    && launch.config.is_default() && launch.tesseract == tesseract && launch.cache
                    == cache,
            },
    {
        if let Some(config) = &config {
            if config.path.is_some() {
                return Err(WarpError::any("Path cannot be set"));
            }
        }
        let config = match config {
            Some(config) => config,
            None => Config::default(),
        };
        Ok(IpfsIdentity::new(config, tesseract, cache))
    }

    /// Starts an account whose repository stays at the configured path. There has
    /// to be one.
    pub fn persistent(config: Config, tesseract: B::Tesseract, cache: Option<B::Cache>) -> (r:
        Result<Startup<B>, WarpError>)
        ensures
            if config.path is None {
                r matches Err(error) && error.says(
                    "Path is required for identity to be persistent"@,
                )
            } else {
                r == Ok::<Startup<B>, WarpError>(
                    Startup::RetrieveKeypair { launch: Launch { config, tesseract, cache } },
                )
            },
    {
        if config.path.is_none() {
            return Err(WarpError::any("Path is required for identity to be persistent"));
        }
        Ok(IpfsIdentity::new(config, tesseract, cache))
    }

    /// Starts an account.
    pub fn new(config: Config, tesseract: B::Tesseract, cache: Option<B::Cache>) -> (r: Startup<B>)
        ensures
            r == (Startup::<B>::RetrieveKeypair { launch: Launch { config, tesseract, cache } }),
    {
        Startup::RetrieveKeypair { launch: Launch { config, tesseract, cache } }
    }

    /// The cache, or that there is none.
    pub fn get_cache(&self) -> (r: Result<&B::Cache, WarpError>)
        ensures
            r == match self.cache {
                Some(cache) => Ok::<&B::Cache, WarpError>(&cache),
                None => Err::<&B::Cache, WarpError>(
                    WarpError::PocketDimensionExtensionUnavailable,
                ),
            },
    {
        match &self.cache {
            Some(cache) => Ok(cache),
            None => Err(WarpError::PocketDimensionExtensionUnavailable),
        }
    }

    /// The directory that is to be removed when the account goes and its node has
    /// stopped.
    pub fn leftover_dir(&self) -> (r: Option<&PathBuf>)
        ensures
            r == match self.spec_leftover_dir() {
                Some(path) => Some(&path),
                None => None::<&PathBuf>,
            },
    {
        if self.temp {
            Some(&self.path)
        } else {
            None
        }
    }

    /// The node.
    pub fn handle(&self) -> (r: &B::Ipfs)
        ensures
            *r == self.ipfs,
    {
        &self.ipfs
    }

    /// Begins to create an identity. The passphrase is not used.
    pub fn create_identity(&self, username: Option<&str>, passphrase: Option<&str>) -> (r:
        CreateIdentity)
        ensures
            r matches CreateIdentity::Create { username: asked, cached } && cached
                == self.cache is Some && match username {
                Some(name) => asked matches Some(text) && text@ == name@,
                None => asked is None,
            },
    {
        CreateIdentity::start(username, self.cache.is_some())
    }

    /// Begins to look an identity up.
    pub fn get_identity(&self, id: Identifier) -> (r: GetIdentity)
        ensures
            r == lookup_start(id, self.cache is Some),
    {
        GetIdentity::start(id, self.cache.is_some())
    }

    /// Begins to change the own identity.
    pub fn update_identity(&self, option: IdentityUpdate) -> (r: UpdateIdentity)
        ensures
            r == (UpdateIdentity::OwnIdentity { option, cached: self.cache is Some }),
    {
        UpdateIdentity::start(option, self.cache.is_some())
    }

    /// The bytes of the key pair that the identity store returned, the secret half
    /// first, or its error. The passphrase is not used.
    pub fn decrypt_private_key(
        &self,
        passphrase: Option<&str>,
        raw_keypair: Result<Keypair, WarpError>,
    ) -> (r: Result<Vec<u8>, WarpError>)
        ensures
            match raw_keypair {
                Ok(keypair) => r matches Ok(bytes) && bytes@ == keypair.bytes@,
                Err(error) => r == Err::<Vec<u8>, WarpError>(error),
            },
    {
        match raw_keypair {
            Ok(keypair) => Ok(keypair.encode()),
            Err(error) => Err(error),
        }
    }

    /// The cache that is to be emptied, and for which module, or that there is
    /// none.
    pub fn refresh_cache(&self) -> (r: Result<(&B::Cache, Module), WarpError>)
        ensures
            r == match self.cache {
                Some(cache) => Ok::<(&B::Cache, Module), WarpError>((&cache, Module::Accounts)),
                None => Err::<(&B::Cache, Module), WarpError>(
                    WarpError::PocketDimensionExtensionUnavailable,
                ),
            },
    {
        match self.get_cache() {
            Ok(cache) => Ok((cache, self.module())),
            Err(error) => Err(error),
        }
    }

    /// Whether a key is among the friends that the friends store returned.
    pub fn has_friend(&self, pubkey: &PublicKey, friends: Result<Vec<PublicKey>, WarpError>) -> (r:
        Result<(), WarpError>)
        ensures
            r == match friends {
                Ok(list) => if is_friend(list@, *pubkey) {
                    Ok::<(), WarpError>(())
                } else {
                    Err::<(), WarpError>(WarpError::FriendDoesntExist)
                },
                Err(error) => Err::<(), WarpError>(error),
            },
    {
        match friends {
            Ok(list) => if contains_key(&list, pubkey) {
                Ok(())
            } else {
                Err(WarpError::FriendDoesntExist)
            },
            Err(error) => Err(error),
        }
    }
}

impl<B: Backend> Extension for IpfsIdentity<B> {
    fn id(&self) -> (r: String)
        ensures
            r@ == "warp-mp-ipfs"@,
    {
        "warp-mp-ipfs".to_string()
    }

    fn name(&self) -> (r: String)
        ensures
            r@ == "Ipfs Identity"@,
    {
        "Ipfs Identity".to_string()
    }

    fn module(&self) -> (r: Module)
        ensures
            r == Module::Accounts,
    {
        Module::Accounts
    }
}

/// An account that `temporary` started is a temporary one, and its repository is
/// removed with it, whatever comes back from the services.
pub proof fn temporary_account_is_removed<B: Backend>(
    launch: Launch<B>,
    replies: Seq<StartupReply<B>>,
    states: Seq<Startup<B>>,
    i: int,
)
    requires
        launch.config.path is None,
        startup_run(launch, replies, states),
        0 <= i < states.len(),
    ensures
        states[i] matches Startup::Done(Ok(identity)) ==> identity.temp
            && identity.spec_leftover_dir() == Some(identity.path),
{
    startup_keeps_what_was_given(launch, replies, states, i);
}

/// An account that `persistent` started has its repository at the configured path,
/// and nothing of it is removed, whatever comes back from the services.
pub proof fn persistent_account_is_kept<B: Backend>(
    launch: Launch<B>,
    replies: Seq<StartupReply<B>>,
    states: Seq<Startup<B>>,
    i: int,
)
    requires
        launch.config.path is Some,
        startup_run(launch, replies, states),
        0 <= i < states.len(),
    ensures
        states[i] matches Startup::Done(Ok(identity)) ==> identity.path == launch.config.path->0
            && identity.spec_leftover_dir() is None,
{
    startup_keeps_what_was_given(launch, replies, states, i);
}

/// An account is either temporary or persistent: of the two ways to start one from
/// a configuration exactly one accepts it, and that one starts with what it was
/// given.
pub proof fn account_is_temporary_or_persistent<B: Backend>(
    config: Config,
    tesseract: B::Tesseract,
    cache: Option<B::Cache>,
    temporary: Result<Startup<B>, WarpError>,
    persistent: Result<Startup<B>, WarpError>,
)
    requires
        call_ensures(IpfsIdentity::<B>::temporary, (Some(config), tesseract, cache), temporary),
        call_ensures(IpfsIdentity::<B>::persistent, (config, tesseract, cache), persistent),
    ensures
        temporary is Ok <==> config.path is None,
        persistent is Ok <==> config.path is Some,
        temporary is Ok <==> persistent is Err,
        temporary matches Ok(start) ==> (start matches Startup::RetrieveKeypair { launch }
            && launch.config == config && launch.tesseract == tesseract && launch.cache == cache),
        persistent matches Ok(start) ==> (start matches Startup::RetrieveKeypair { launch }
            && launch.config == config && launch.tesseract == tesseract && launch.cache == cache),
        temporary matches Err(error) ==> (error matches WarpError::Any(text) && text@
            == "Path cannot be set"@),
        persistent matches Err(error) ==> (error matches WarpError::Any(text) && text@
            == "Path is required for identity to be persistent"@),
{
}

/// A temporary account can always be started without a configuration: no path is
/// set, and the key store and the cache are the given ones.
pub proof fn temporary_account_needs_no_configuration<B: Backend>(
    tesseract: B::Tesseract,
    cache: Option<B::Cache>,
    temporary: Result<Startup<B>, WarpError>,
)
    requires
        call_ensures(IpfsIdentity::<B>::temporary, (None, tesseract, cache), temporary),
    ensures
        temporary matches Ok(start) && {
            &&& start matches Startup::RetrieveKeypair { launch }
            &&& launch.config.path is None
            &&& launch.config.bootstrap@.len() == 0
            &&& launch.config.listen_on@.len() == 0
            &&& !launch.config.ipfs_setting.mdns.enable
            &&& !launch.config.ipfs_setting.dcutr.enable
            &&& !launch.config.ipfs_setting.relay_client.enable
            &&& launch.config.ipfs_setting.relay_client.relay_address is None
            &&& !launch.config.ipfs_setting.relay_server.enable
            &&& !launch.config.store_setting.discovery
            &&& launch.config.store_setting.broadcast_interval == 0
            &&& launch.tesseract == tesseract
            &&& launch.cache == cache
        },
{
}

/// A start begins with what it was given.
pub proof fn start_begins_with_what_was_given<B: Backend>(
    config: Config,
    tesseract: B::Tesseract,
    cache: Option<B::Cache>,
    start: Startup<B>,
)
    requires
        call_ensures(IpfsIdentity::<B>::new, (config, tesseract, cache), start),
    ensures
        start matches Startup::RetrieveKeypair { launch } && launch.config == config
            && launch.tesseract == tesseract && launch.cache == cache,
{
}

/// When an account goes, the directory at its path goes with it exactly where the
/// account is a temporary one.
pub proof fn only_a_temporary_directory_is_removed<B: Backend>(
    account: IpfsIdentity<B>,
    leftover: Option<&PathBuf>,
)
    requires
        call_ensures(IpfsIdentity::<B>::leftover_dir, (&account,), leftover),
    ensures
        account.temp <==> leftover is Some,
        leftover matches Some(path) ==> *path == account.path,
{
}

/// A key is that of a friend exactly where it is one of the listed keys, wherever
/// it stands; and where the list cannot be had, the reason is the answer.
pub proof fn friend_is_one_of_the_listed<B: Backend>(
    account: IpfsIdentity<B>,
    key: PublicKey,
    friends: Result<Vec<PublicKey>, WarpError>,
    r: Result<(), WarpError>,
)
    requires
        call_ensures(IpfsIdentity::<B>::has_friend, (&account, &key, friends), r),
    ensures
        friends matches Ok(list) ==> {
            &&& r is Ok <==> exists|i: int|
                0 <= i < list@.len() && (#[trigger] list@[i]).bytes@ == key.bytes@
            &&& r matches Err(error) ==> error is FriendDoesntExist
        },
        friends matches Err(error) ==> r == Err::<(), WarpError>(error),
{
}

/// The cache that is given out, and the one that is emptied, for the accounts, is
/// the one that the account has; without one, both are refused for that reason.
pub proof fn cache_is_the_own_one<B: Backend>(
    account: IpfsIdentity<B>,
    given: Result<&B::Cache, WarpError>,
    emptied: Result<(&B::Cache, Module), WarpError>,
)
    requires
        call_ensures(IpfsIdentity::<B>::get_cache, (&account,), given),
        call_ensures(IpfsIdentity::<B>::refresh_cache, (&account,), emptied),
    ensures
        given is Ok <==> account.cache is Some,
        emptied is Ok <==> account.cache is Some,
        account.cache matches Some(cache) ==> *given->Ok_0 == cache && *(emptied->Ok_0).0 == cache
            && (emptied->Ok_0).1 == Module::Accounts,
        account.cache is None ==> given->Err_0 is PocketDimensionExtensionUnavailable
            && emptied->Err_0 is PocketDimensionExtensionUnavailable,
{
}

/// The private key is written out as the identity store has it, whatever the
/// passphrase, and the reason why it cannot be had is handed on.
pub proof fn private_key_is_that_of_the_store<B: Backend>(
    account: IpfsIdentity<B>,
    passphrase: Option<&str>,
    raw: Result<Keypair, WarpError>,
    r: Result<Vec<u8>, WarpError>,
)
    requires
        call_ensures(IpfsIdentity::<B>::decrypt_private_key, (&account, passphrase, raw), r),
    ensures
        raw matches Ok(pair) ==> (r matches Ok(bytes) && bytes@ == pair.bytes@),
        raw matches Err(error) ==> r == Err::<Vec<u8>, WarpError>(error),
{
}

/// What an account begins, it begins as for its cache: the name that was chosen,
/// the identifier, and the change are handed on as they are.
pub proof fn account_begins_what_is_asked<B: Backend>(
    account: IpfsIdentity<B>,
    username: Option<&str>,
    passphrase: Option<&str>,
    creation: CreateIdentity,
    id: Identifier,
    lookup: GetIdentity,
    plain: GetIdentity,
    option: IdentityUpdate,
    change: UpdateIdentity,
)
    requires
        call_ensures(
            IpfsIdentity::<B>::create_identity,
            (&account, username, passphrase),
            creation,
        ),
        call_ensures(IpfsIdentity::<B>::get_identity, (&account, id), lookup),
        call_ensures(GetIdentity::start, (id, account.cache is Some), plain),
        call_ensures(IpfsIdentity::<B>::update_identity, (&account, option), change),
    ensures
        creation matches CreateIdentity::Create { username: asked, cached } && {
            &&& cached <==> account.cache is Some
            &&& asked is Some <==> username is Some
            &&& username matches Some(name) ==> asked->0@ == name@
        },
        lookup == plain,
        change matches UpdateIdentity::OwnIdentity { option: same, cached } && {
            &&& same == option
            &&& cached <==> account.cache is Some
        },
{
}

/// An account tells its id, its name and its module, and describes itself by them.
pub proof fn account_tells_what_it_is<B: Backend>(
    account: IpfsIdentity<B>,
    id: String,
    name: String,
    module: Module,
    description: String,
)
    requires
        call_ensures(IpfsIdentity::<B>::id, (&account,), id),
        call_ensures(IpfsIdentity::<B>::name, (&account,), name),
        call_ensures(IpfsIdentity::<B>::module, (&account,), module),
        call_ensures(IpfsIdentity::<B>::description, (&account,), description),
    ensures
        id@ == "warp-mp-ipfs"@,
        name@ == "Ipfs Identity"@,
        module == Module::Accounts,
        description@ == "Ipfs Identity"@
            + " is an extension that is designed to be used for "@ + "ACCOUNTS"@,
{
}

/// The node that is handed out is that of the account.
pub proof fn node_is_the_own_one<B: Backend>(account: IpfsIdentity<B>, node: &B::Ipfs)
    requires
        call_ensures(IpfsIdentity::<B>::handle, (&account,), node),
    ensures
        *node == account.ipfs,
{
}

} // verus!
