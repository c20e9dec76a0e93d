//! What an identity is started with, and what a node is started with.

use std::path::PathBuf;
use vstd::prelude::*;

use crate::keypair::Keypair;

verus! {

#[verifier::external_type_specification]
#[verifier::external_body]
pub struct ExPathBuf(std::path::PathBuf);

/// `Clone` of `std::path::PathBuf`: a path that is the same as the one it was made
/// from.
#[verifier::external_body]
pub(crate) fn clone_path(path: &PathBuf) -> (r: PathBuf)
    ensures
        r == *path,
{
    path.clone()
}

/// A feature that can be on or off.
#[derive(Debug, Clone, Copy, PartialEq, Eq)]
pub struct Toggle {
    /// Whether it is on.
    pub enable: bool,
}

/// The use of a relay.
#[derive(Debug, PartialEq, Eq)]
pub struct RelayClient {
    /// Whether a relay is used.
    pub enable: bool,
    /// The address of the relay.
    pub relay_address: Option<String>,
}

/// The features of the node.
#[derive(Debug, PartialEq, Eq)]
pub struct IpfsSetting {
    /// Discovery in the local network.
    pub mdns: Toggle,
    /// Upgrade of relayed connections to direct ones.
    pub dcutr: Toggle,
    /// The use of a relay.
    pub relay_client: RelayClient,
    /// Whether to be a relay for others.
    pub relay_server: Toggle,
}

/// The settings of the identity store and the friends store.
#[derive(Debug, Clone, Copy, PartialEq, Eq)]
pub struct StoreSetting {
    /// Whether to look for others.
    pub discovery: bool,
    /// The time between two broadcasts.
    pub broadcast_interval: u64,
}

/// What an identity is started with.
#[derive(Debug, PartialEq, Eq)]
pub struct Config {
    /// Where the repository of the node is. Without one, the identity is a
    /// temporary one.
    pub path: Option<PathBuf>,
    /// The addresses of the nodes to begin with.
    pub bootstrap: Vec<String>,
    /// The addresses to listen on.
    pub listen_on: Vec<String>,
    /// The features of the node.
    pub ipfs_setting: IpfsSetting,
    /// The settings of the stores.
    pub store_setting: StoreSetting,
}

impl Config {
    /// No path, no addresses, and every feature off. These defaults are this
    /// library's own choice: a configuration turns on what it names, and nothing
    /// else.
    pub open spec fn is_default(self) -> bool {
        &&& self.path is None
        &&& self.bootstrap@.len() == 0
        &&& self.listen_on@.len() == 0
        &&& self.ipfs_setting == IpfsSetting {
            mdns: Toggle { enable: false },
            dcutr: Toggle { enable: false },
            relay_client: RelayClient { enable: false, relay_address: None },
            relay_server: Toggle { enable: false },
        }
        &&& self.store_setting == StoreSetting { discovery: false, broadcast_interval: 0 }
    }
}

impl Default for Config {
    fn default() -> (r: Config)
        ensures
            r.is_default(),
    {
        Config {
            path: None,
            bootstrap: Vec::new(),
            listen_on: Vec::new(),
            ipfs_setting: IpfsSetting {
                mdns: Toggle { enable: false },
                dcutr: Toggle { enable: false },
                relay_client: RelayClient { enable: false, relay_address: None },
                relay_server: Toggle { enable: false },
            },
            store_setting: StoreSetting { discovery: false, broadcast_interval: 0 },
        }
    }
}

/// What a node is started with.
#[derive(Debug, PartialEq, Eq)]
pub struct IpfsOptions {
    /// Where the repository is.
    pub ipfs_path: PathBuf,
    /// The key pair of the node.
    pub keypair: Keypair,
    /// The addresses of the nodes to begin with.
    pub bootstrap: Vec<String>,
    /// Discovery in the local network.
    pub mdns: bool,
    /// The name of the routing protocol, if it is not the usual one.
    pub kad_protocol: Option<String>,
    /// The addresses to listen on.
    pub listening_addrs: Vec<String>,
    /// The span to trace under.
    pub span: Option<String>,
    /// Upgrade of relayed connections to direct ones.
    pub dcutr: bool,
    /// Whether a relay is used.
    pub relay: bool,
    /// Whether to be a relay for others.
    pub relay_server: bool,
    /// The address of the relay.
    pub relay_addr: Option<String>,
}

impl IpfsOptions {
    /// The options of a node under `ipfs_path` with the settings of `config`.
    pub open spec fn of(config: Config, ipfs_path: PathBuf, keypair: Keypair) -> IpfsOptions {
        IpfsOptions {
            ipfs_path,
            keypair,
            bootstrap: config.bootstrap,
            mdns: config.ipfs_setting.mdns.enable,
            kad_protocol: None,
            listening_addrs: config.listen_on,
            span: None,
            dcutr: config.ipfs_setting.dcutr.enable,
            relay: config.ipfs_setting.relay_client.enable,
            relay_server: config.ipfs_setting.relay_server.enable,
            relay_addr: config.ipfs_setting.relay_client.relay_address,
        }
    }

    /// The options of a node under `ipfs_path` with the settings of `config`,
    /// and the settings of the stores, which the node does not need.
    pub fn new(config: Config, ipfs_path: PathBuf, keypair: Keypair) -> (r: (
        IpfsOptions,
        StoreSetting,
    ))
        ensures
            r.0 == IpfsOptions::of(config, ipfs_path, keypair),
            r.1 == config.store_setting,
    {
        let options = IpfsOptions {
            ipfs_path,
            keypair,
            bootstrap: config.bootstrap,
            mdns: config.ipfs_setting.mdns.enable,
            kad_protocol: None,
            listening_addrs: config.listen_on,
            span: None,
            dcutr: config.ipfs_setting.dcutr.enable,
            relay: config.ipfs_setting.relay_client.enable,
            relay_server: config.ipfs_setting.relay_server.enable,
            relay_addr: config.ipfs_setting.relay_client.relay_address,
        };
        (options, config.store_setting)
    }
}

/// A node gets each of its settings from the setting of the configuration that is
/// for it, the path and the key pair that it is given, and nothing else. The
/// stores get theirs as they are.
pub proof fn node_gets_the_configured_settings(
    config: Config,
    path: PathBuf,
    keypair: Keypair,
    options: IpfsOptions,
    stores: StoreSetting,
)
    requires
        call_ensures(IpfsOptions::new, (config, path, keypair), (options, stores)),
    ensures
        options.ipfs_path == path,
        options.keypair == keypair,
        options.bootstrap == config.bootstrap,
        options.listening_addrs == config.listen_on,
        options.mdns == config.ipfs_setting.mdns.enable,
        options.dcutr == config.ipfs_setting.dcutr.enable,
        options.relay == config.ipfs_setting.relay_client.enable,
        options.relay_addr == config.ipfs_setting.relay_client.relay_address,
        options.relay_server == config.ipfs_setting.relay_server.enable,
        options.kad_protocol is None,
        options.span is None,
        stores.discovery == config.store_setting.discovery,
        stores.broadcast_interval == config.store_setting.broadcast_interval,
{
}

/// A configuration that says nothing has no path and no addresses, and turns
/// nothing on.
pub proof fn default_configuration_is_off(config: Config)
    requires
        call_ensures(Config::default, (), config),
    ensures
        config.path is None,
        config.bootstrap@.len() == 0,
        config.listen_on@.len() == 0,
        !config.ipfs_setting.mdns.enable,
        !config.ipfs_setting.dcutr.enable,
        !config.ipfs_setting.relay_client.enable,
        config.ipfs_setting.relay_client.relay_address is None,
        !config.ipfs_setting.relay_server.enable,
        !config.store_setting.discovery,
        config.store_setting.broadcast_interval == 0,
{
}

} // verus!
