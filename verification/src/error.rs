//! What can go wrong.

use vstd::prelude::*;

verus! {

#[verifier::external_type_specification]
#[verifier::external_body]
pub struct ExJsonError(serde_json::Error);

#[verifier::external_type_specification]
#[verifier::external_body]
pub struct ExBase58Error(bs58::decode::Error);

#[verifier::external_type_specification]
#[verifier::external_body]
pub struct ExSignatureError(ed25519_dalek::SignatureError);

#[verifier::external_type_specification]
#[verifier::external_body]
pub struct ExDecodingError(libp2p::identity::error::DecodingError);

#[verifier::external_type_specification]
#[verifier::external_body]
pub struct ExCidError(libipld::cid::Error);

/// The errors of the library, and those of the services around it as they are
/// handed in.
#[derive(Debug)]
pub enum WarpError {
    /// There is no cache to work with.
    PocketDimensionExtensionUnavailable,
    /// An identifier names nothing, or more than one thing.
    InvalidIdentifierCondition,
    /// An update names no field, or more than one.
    CannotUpdateIdentity,
    /// The key is not among the friends.
    FriendDoesntExist,
    /// A payload could not be turned into JSON or back.
    SerdeJson(serde_json::Error),
    /// A stored key pair is not base58 text.
    Base58(bs58::decode::Error),
    /// A stored key pair is not an ed25519 key pair.
    Signature(ed25519_dalek::SignatureError),
    /// A secret key was not accepted as a network identity.
    Decoding(libp2p::identity::error::DecodingError),
    /// A stored content identifier cannot be read.
    Cid(libipld::cid::Error),
    /// Anything else, in words.
    Any(String),
}

impl From<serde_json::Error> for WarpError {
    fn from(error: serde_json::Error) -> (r: WarpError) {
        WarpError::SerdeJson(error)
    }
}

impl vstd::std_specs::convert::FromSpecImpl<serde_json::Error> for WarpError {
    open spec fn obeys_from_spec() -> bool {
        true
    }

    open spec fn from_spec(error: serde_json::Error) -> WarpError {
        WarpError::SerdeJson(error)
    }
}

impl WarpError {
    /// An error that is told in words.
    pub fn any(message: &str) -> (r: WarpError)
        ensures
            r matches WarpError::Any(text) && text@ == message@,
    {
        WarpError::Any(message.to_string())
    }

    /// Whether the error is `message` in words.
    pub open spec fn says(self, message: Seq<char>) -> bool {
        self matches WarpError::Any(text) && text@ == message
    }
}

} // verus!
