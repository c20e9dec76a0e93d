//! Accounts on an IPFS node: how an identity is started, created, looked up
//! and changed, and the data objects in which modules exchange their payloads.
//!
//! The library decides; it does no input or output. Each operation that needs
//! the network, the key store, the cache or the disk is a state machine whose
//! state is the request to be carried out next. The caller carries it out and
//! hands the outcome to `next`.

pub mod account;
pub mod base58;
pub mod config;
pub mod content_id;
mod course;
pub mod create;
pub mod data;
pub mod error;
pub mod extension;
pub mod ffi;
pub mod identity;
pub mod keypair;
pub mod lookup;
pub mod module;
pub mod recall;
pub mod startup;
pub mod update;

pub use account::{Backend, IpfsIdentity};
pub use config::{Config, IpfsOptions, IpfsSetting, RelayClient, StoreSetting, Toggle};
pub use content_id::Cid;
pub use create::{CreateIdentity, CreateReply};
pub use data::{Data, DataObject, Payload, Timestamp};
pub use error::WarpError;
pub use extension::Extension;
pub use ffi::{multipass_mp_ipfs_persistent, multipass_mp_ipfs_temporary};
pub use identity::{Graphics, Identifier, Identity, IdentityUpdate, LookupBy, PublicKey};
pub use keypair::Keypair;
pub use lookup::{GetIdentity, GetReply, QueryOutcome};
pub use module::Module;
pub use startup::{Launch, Plan, Startup, StartupReply};
pub use update::{Change, UpdateIdentity, UpdateReply};
