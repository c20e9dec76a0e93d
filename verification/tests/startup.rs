use std::path::PathBuf;
use warp_mp_ipfs::startup::{temp_name, KEYPAIR_KEY};
use warp_mp_ipfs::{
    multipass_mp_ipfs_persistent, multipass_mp_ipfs_temporary, Backend, Config, Extension,
    IpfsIdentity, IpfsSetting, Keypair, Module, PublicKey, RelayClient, Startup, StartupReply,
    StoreSetting, Toggle, WarpError,
};

struct Names;

impl Backend for Names {
    type Tesseract = String;
    type Cache = u32;
    type Ipfs = &'static str;
    type FriendsStore = &'static str;
    type IdentityStore = &'static str;
}

fn configured(path: Option<&str>) -> Config {
    Config {
        path: path.map(PathBuf::from),
        bootstrap: vec![String::from("/dnsaddr/bootstrap.libp2p.io")],
        listen_on: vec![String::from("/ip4/0.0.0.0/tcp/0")],
        ipfs_setting: IpfsSetting {
            mdns: Toggle { enable: true },
            dcutr: Toggle { enable: false },
            relay_client: RelayClient {
                enable: true,
                relay_address: Some(String::from("/ip4/10.0.0.1/tcp/4001")),
            },
            relay_server: Toggle { enable: false },
        },
        store_setting: StoreSetting { discovery: true, broadcast_interval: 100 },
    }
}

fn absent() -> WarpError {
    WarpError::any("absent")
}

fn says(error: &WarpError, message: &str) -> bool {
    matches!(error, WarpError::Any(text) if text == message)
}

fn started(path: Option<&str>) -> Startup<Names> {
    IpfsIdentity::new(configured(path), String::from("keys"), Some(5))
}

fn account(path: Option<&str>, cache: Option<u32>) -> IpfsIdentity<Names> {
    let mut state: Startup<Names> =
        IpfsIdentity::new(configured(path), String::from("keys"), cache);
    loop {
        state = match state {
            Startup::Done(done) => return done.unwrap(),
            Startup::RetrieveKeypair { .. } => state.next(StartupReply::Secret(Err(absent()))),
            Startup::MakeTempPath { ref name, .. } => {
                let path = PathBuf::from("/tmp").join(name);
                state.next(StartupReply::Path(path))
            }
            Startup::CheckDir { .. } => state.next(StartupReply::Exists(true)),
            Startup::StartNode { .. } => state.next(StartupReply::Node(Ok("node"))),
            Startup::OpenIdentityStore { .. } => {
                state.next(StartupReply::IdentityStore(Ok("identities")))
            }
            Startup::OpenFriendsStore { .. } => {
                state.next(StartupReply::FriendsStore(Ok("friends")))
            }
            Startup::StoreKeypair { .. } | Startup::CreateDir { .. } => {
                state.next(StartupReply::Finished(Ok(())))
            }
        };
    }
}

#[test]
fn keypair_is_kept_under_its_name() {
    assert_eq!(KEYPAIR_KEY, "ipfs_keypair");
}

#[test]
fn temporary_names() {
    assert_eq!(temp_name(0), "ipfs-temp-0");
    assert_eq!(temp_name(7), "ipfs-temp-7");
    assert_eq!(temp_name(40), "ipfs-temp-40");
    assert_eq!(temp_name(999), "ipfs-temp-999");
    assert_eq!(temp_name(4294967295), "ipfs-temp-4294967295");
}

#[test]
fn stored_keypair_survives_a_restart() {
    let first = started(Some("/repo")).next(StartupReply::Secret(Err(absent())));
    let (bytes, text) = match first {
        Startup::StoreKeypair { keypair, text, .. } => (keypair.bytes, text),
        _ => panic!("a key pair has to be stored"),
    };
    let second = started(Some("/repo")).next(StartupReply::Secret(Ok(text)));
    match second {
        Startup::CheckDir { plan } => assert_eq!(plan.options.keypair.bytes, bytes),
        _ => panic!("a stored key pair has to be used"),
    }
}

#[test]
fn broken_keypair_ends_the_start() {
    let state = started(None).next(StartupReply::Secret(Ok(String::from("0"))));
    assert!(matches!(state, Startup::Done(Err(WarpError::Base58(_)))));
    let state = started(None).next(StartupReply::Secret(Ok(String::from("he11owor1d"))));
    assert!(matches!(state, Startup::Done(Err(WarpError::Signature(_)))));
}

#[test]
fn keypair_that_cannot_be_stored_ends_the_start() {
    let state = started(None)
        .next(StartupReply::Secret(Err(absent())))
        .next(StartupReply::Finished(Err(WarpError::any("locked"))));
    assert!(matches!(state, Startup::Done(Err(error)) if says(&error, "locked")));
}

#[test]
fn options_are_those_of_the_configuration() {
    let keypair = Keypair::generate();
    let text = keypair.to_text();
    let state = started(Some("/repo")).next(StartupReply::Secret(Ok(text)));
    let plan = match state {
        Startup::CheckDir { plan } => plan,
        _ => panic!("the path is known"),
    };
    assert_eq!(plan.options.ipfs_path, PathBuf::from("/repo"));
    assert_eq!(plan.options.keypair, keypair);
    assert_eq!(plan.options.bootstrap, vec![String::from("/dnsaddr/bootstrap.libp2p.io")]);
    assert_eq!(plan.options.listening_addrs, vec![String::from("/ip4/0.0.0.0/tcp/0")]);
    assert!(plan.options.mdns);
    assert!(!plan.options.dcutr);
    assert!(plan.options.relay);
    assert!(!plan.options.relay_server);
    assert_eq!(plan.options.relay_addr, Some(String::from("/ip4/10.0.0.1/tcp/4001")));
    assert_eq!(plan.options.kad_protocol, None);
    assert_eq!(plan.options.span, None);
    assert_eq!(plan.store_setting, StoreSetting { discovery: true, broadcast_interval: 100 });
    assert_eq!(plan.tesseract, "keys");
    assert_eq!(plan.cache, Some(5));
    assert!(!plan.temp);
}

#[test]
fn temporary_path_has_a_number() {
    for _ in 0..50 {
        let state = started(None)
            .next(StartupReply::Secret(Err(absent())))
            .next(StartupReply::Finished(Ok(())));
        match state {
            Startup::MakeTempPath { name, .. } => {
                let number: u32 = name.strip_prefix("ipfs-temp-").unwrap().parse().unwrap();
                assert!(number < 1000);
            }
            _ => panic!("there is no path yet"),
        }
    }
}

#[test]
fn directory_is_created_where_there_is_none() {
    let text = Keypair::generate().to_text();
    let state = started(Some("/repo"))
        .next(StartupReply::Secret(Ok(text)))
        .next(StartupReply::Exists(false));
    assert!(matches!(state, Startup::CreateDir { .. }));
    let state = state.next(StartupReply::Finished(Ok(())));
    assert!(matches!(state, Startup::StartNode { .. }));
    let text = Keypair::generate().to_text();
    let state = started(Some("/repo"))
        .next(StartupReply::Secret(Ok(text)))
        .next(StartupReply::Exists(false))
        .next(StartupReply::Finished(Err(WarpError::any("full"))));
    assert!(matches!(state, Startup::Done(Err(error)) if says(&error, "full")));
}

#[test]
fn failing_services_end_the_start() {
    let text = Keypair::generate().to_text();
    let begin = || {
        started(Some("/repo"))
            .next(StartupReply::Secret(Ok(text.clone())))
            .next(StartupReply::Exists(true))
    };
    let state = begin().next(StartupReply::Node(Err(WarpError::any("node"))));
    assert!(matches!(state, Startup::Done(Err(error)) if says(&error, "node")));
    let state = begin()
        .next(StartupReply::Node(Ok("node")))
        .next(StartupReply::IdentityStore(Err(WarpError::any("identities"))));
    assert!(matches!(state, Startup::Done(Err(error)) if says(&error, "identities")));
    let state = begin()
        .next(StartupReply::Node(Ok("node")))
        .next(StartupReply::IdentityStore(Ok("identities")))
        .next(StartupReply::FriendsStore(Err(WarpError::any("friends"))));
    assert!(matches!(state, Startup::Done(Err(error)) if says(&error, "friends")));
}

#[test]
fn foreign_outcome_changes_nothing() {
    let state = started(None).next(StartupReply::Exists(true));
    assert!(matches!(state, Startup::RetrieveKeypair { .. }));
}

#[test]
fn temporary_account_leaves_its_directory_to_be_removed() {
    let account = account(None, None);
    assert!(account.temp);
    assert!(account.path.starts_with("/tmp"));
    assert_eq!(account.leftover_dir(), Some(&account.path));
}

#[test]
fn persistent_account_is_left_alone() {
    let account = account(Some("/repo"), None);
    assert!(!account.temp);
    assert_eq!(account.path, PathBuf::from("/repo"));
    assert_eq!(account.leftover_dir(), None);
    assert_eq!(*account.handle(), "node");
    assert_eq!(account.identity_store, "identities");
    assert_eq!(account.friend_store, "friends");
    assert_eq!(account.tesseract, "keys");
}

#[test]
fn temporary_refuses_a_path() {
    let made = IpfsIdentity::<Names>::temporary(
        Some(configured(Some("/repo"))),
        String::from("keys"),
        None,
    );
    assert!(matches!(made, Err(error) if says(&error, "Path cannot be set")));
}

#[test]
fn temporary_takes_a_configuration_without_a_path_or_none() {
    let made =
        IpfsIdentity::<Names>::temporary(Some(configured(None)), String::from("keys"), Some(1));
    match made {
        Ok(Startup::RetrieveKeypair { launch }) => {
            assert_eq!(launch.config, configured(None));
            assert_eq!(launch.cache, Some(1));
        }
        _ => panic!("the start has to begin"),
    }
    let made = IpfsIdentity::<Names>::temporary(None, String::from("keys"), None);
    match made {
        Ok(Startup::RetrieveKeypair { launch }) => {
            assert_eq!(launch.config, Config::default());
            assert_eq!(launch.config.path, None);
        }
        _ => panic!("the start has to begin"),
    }
}

#[test]
fn persistent_needs_a_path() {
    let made =
        IpfsIdentity::<Names>::persistent(configured(None), String::from("keys"), None);
    assert!(matches!(
        made,
        Err(error) if says(&error, "Path is required for identity to be persistent")
    ));
    let made =
        IpfsIdentity::<Names>::persistent(configured(Some("/repo")), String::from("keys"), None);
    assert!(matches!(made, Ok(Startup::RetrieveKeypair { .. })));
}

#[test]
fn foreign_temporary_start() {
    let made = multipass_mp_ipfs_temporary::<Names>(None, None, None);
    match made {
        Ok(Startup::RetrieveKeypair { launch }) => {
            assert_eq!(launch.tesseract, "");
            assert_eq!(launch.cache, None);
            assert_eq!(launch.config, Config::default());
        }
        _ => panic!("the start has to begin"),
    }
    let made = multipass_mp_ipfs_temporary::<Names>(
        Some(3),
        Some(String::from("keys")),
        Some(Ok(configured(Some("/repo")))),
    );
    assert!(matches!(made, Err(error) if says(&error, "Path cannot be set")));
    let broken = serde_json::from_str::<u8>("{").unwrap_err();
    let made = multipass_mp_ipfs_temporary::<Names>(None, None, Some(Err(broken)));
    assert!(matches!(made, Err(WarpError::SerdeJson(_))));
}

#[test]
fn foreign_persistent_start() {
    let made = multipass_mp_ipfs_persistent::<Names>(None, None, None);
    assert!(matches!(made, Err(error) if says(&error, "Configuration is invalid")));
    let broken = serde_json::from_str::<u8>("{").unwrap_err();
    let made = multipass_mp_ipfs_persistent::<Names>(None, None, Some(Err(broken)));
    assert!(matches!(made, Err(WarpError::SerdeJson(_))));
    let made = multipass_mp_ipfs_persistent::<Names>(None, None, Some(Ok(configured(None))));
    assert!(matches!(
        made,
        Err(error) if says(&error, "Path is required for identity to be persistent")
    ));
    let made = multipass_mp_ipfs_persistent::<Names>(
        Some(3),
        Some(String::from("keys")),
        Some(Ok(configured(Some("/repo")))),
    );
    match made {
        Ok(Startup::RetrieveKeypair { launch }) => {
            assert_eq!(launch.tesseract, "keys");
            assert_eq!(launch.cache, Some(3));
            assert_eq!(launch.config, configured(Some("/repo")));
        }
        _ => panic!("the start has to begin"),
    }
}

#[test]
fn cache_is_given_out_where_there_is_one() {
    let with = account(None, Some(8));
    assert!(matches!(with.get_cache(), Ok(8)));
    assert!(matches!(with.refresh_cache(), Ok((8, Module::Accounts))));
    let without = account(None, None);
    assert!(matches!(
        without.get_cache(),
        Err(WarpError::PocketDimensionExtensionUnavailable)
    ));
    assert!(matches!(
        without.refresh_cache(),
        Err(WarpError::PocketDimensionExtensionUnavailable)
    ));
}

#[test]
fn account_describes_itself() {
    let account = account(None, None);
    assert_eq!(account.id(), "warp-mp-ipfs");
    assert_eq!(account.name(), "Ipfs Identity");
    assert_eq!(account.module(), Module::Accounts);
    assert_eq!(
        account.description(),
        "Ipfs Identity is an extension that is designed to be used for ACCOUNTS"
    );
}

struct Plain;

impl Extension for Plain {
    fn name(&self) -> String {
        String::from("Plain")
    }

    fn module(&self) -> Module {
        Module::Other(String::from("FILESYSTEM"))
    }
}

#[test]
fn extension_has_its_name_for_an_id() {
    assert_eq!(Plain.id(), "Plain");
    assert_eq!(
        Plain.description(),
        "Plain is an extension that is designed to be used for FILESYSTEM"
    );
}

#[test]
fn private_key_is_written_out() {
    let account = account(None, None);
    let keypair = Keypair::generate();
    let bytes = keypair.bytes.clone();
    assert!(matches!(account.decrypt_private_key(None, Ok(keypair)), Ok(out) if out == bytes));
    let failed = account.decrypt_private_key(Some("secret"), Err(absent()));
    assert!(matches!(failed, Err(error) if says(&error, "absent")));
}

#[test]
fn friends_are_found_by_their_key() {
    let account = account(None, None);
    let key = |n: u8| PublicKey { bytes: vec![n, 1] };
    let list = || Ok(vec![key(1), key(2), key(3)]);
    assert!(account.has_friend(&key(1), list()).is_ok());
    assert!(account.has_friend(&key(3), list()).is_ok());
    assert!(matches!(
        account.has_friend(&key(4), list()),
        Err(WarpError::FriendDoesntExist)
    ));
    assert!(matches!(
        account.has_friend(&PublicKey { bytes: vec![1] }, list()),
        Err(WarpError::FriendDoesntExist)
    ));
    assert!(matches!(
        account.has_friend(&key(1), Ok(vec![])),
        Err(WarpError::FriendDoesntExist)
    ));
    let failed = account.has_friend(&key(1), Err(absent()));
    assert!(matches!(failed, Err(error) if says(&error, "absent")));
}

#[test]
fn temporary_repository_of_a_number() {
    let launch = match started(None) {
        Startup::RetrieveKeypair { launch } => launch,
        _ => panic!("the key pair comes first"),
    };
    let keypair = Keypair::generate();
    let bytes = keypair.encode();
    match Startup::with_number(launch, keypair, 42) {
        Startup::MakeTempPath { name, keypair, launch } => {
            assert_eq!(name, "ipfs-temp-42");
            assert_eq!(keypair.bytes, bytes);
            assert_eq!(launch.config, configured(None));
        }
        _ => panic!("the path is to be made"),
    }
}

#[test]
fn accounts_can_be_cloned() {
    let first = account(Some("/repo"), Some(5));
    let second = first.clone();
    assert_eq!(second.path, PathBuf::from("/repo"));
    assert_eq!(second.cache, Some(5));
    assert_eq!(second.tesseract, first.tesseract);
    assert_eq!(second.ipfs, first.ipfs);
    assert_eq!(second.friend_store, first.friend_store);
    assert_eq!(second.identity_store, first.identity_store);
    assert!(!second.temp);
    assert!(account(None, None).clone().cache.is_none());
}
