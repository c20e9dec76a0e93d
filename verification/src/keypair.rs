//! The key pair of a node, and the text under which it is kept.

use vstd::prelude::*;

use crate::base58;
use crate::base58::{base58_bytes, base58_of, is_base58};
use crate::error::WarpError;

verus! {

/// The public key that belongs to an ed25519 secret key.
pub uninterp spec fn ed25519_public(secret: Seq<u8>) -> Seq<u8>;

/// Whether bytes are a point of the ed25519 curve in its compressed form.
pub uninterp spec fn ed25519_point(bytes: Seq<u8>) -> bool;

/// `ed25519_dalek::Keypair::from_bytes`, of which only the secret key is kept:
/// it takes 64 bytes whose second half is a point of the curve, refuses all
/// others, and has the first half as its secret key. It does not look whether
/// the two halves belong together.
#[verifier::external_body]
fn dalek_secret(bytes: &[u8]) -> (r: Result<Vec<u8>, ed25519_dalek::SignatureError>)
    ensures
        r is Ok <==> is_stored_pair(bytes@),
        r matches Ok(secret) ==> secret@ == bytes@.subrange(0, 32),
{
    ed25519_dalek::Keypair::from_bytes(bytes).map(|pair| pair.secret.to_bytes().to_vec())
}

/// `libp2p::identity::ed25519::SecretKey::from_bytes`, made into a key pair and
/// written out: it takes 32 bytes and refuses any other number of them. What is
/// written is the secret key and then its public key, which is a point of the
/// curve.
#[verifier::external_body]
fn libp2p_pair(secret: &[u8]) -> (r: Result<Vec<u8>, libp2p::identity::error::DecodingError>)
    ensures
        r is Ok <==> secret@.len() == 32,
        r matches Ok(pair) ==> {
            &&& pair@ == secret@ + ed25519_public(secret@)
            &&& pair@.len() == 64
            &&& ed25519_point(pair@.subrange(32, 64))
        },
{
    libp2p::identity::ed25519::SecretKey::from_bytes(secret.to_vec()).map(
        |key| libp2p::identity::ed25519::Keypair::from(key).encode().to_vec(),
    )
}

/// `libp2p::identity::Keypair::generate_ed25519`, written out: it returns a key
/// pair of the ed25519 kind, which is the secret key and then its public key, a
/// point of the curve. The secret key is random.
#[verifier::external_body]
fn libp2p_generate() -> (r: Option<Vec<u8>>)
    ensures
        match r {
            Some(pair) => {
                &&& pair@.len() == 64
                &&& pair@.subrange(32, 64) == ed25519_public(pair@.subrange(0, 32))
                &&& ed25519_point(pair@.subrange(32, 64))
            },
            None => false,
        },
{
    match libp2p::identity::Keypair::generate_ed25519() {
        libp2p::identity::Keypair::Ed25519(pair) => Some(pair.encode().to_vec()),
        _ => None,
    }
}

/// An ed25519 key pair: the 32 bytes of the secret key, then the 32 bytes of the
/// public key.
#[derive(Debug, PartialEq, Eq)]
pub struct Keypair {
    /// The 64 bytes.
    pub bytes: Vec<u8>,
}

/// Whether bytes are taken for a stored key pair: there are 64 of them, and the
/// second half is a point of the curve.
pub open spec fn is_stored_pair(bytes: Seq<u8>) -> bool {
    bytes.len() == 64 && ed25519_point(bytes.subrange(32, 64))
}

/// The bytes of the key pair that belongs to a secret key.
pub open spec fn pair_of(secret: Seq<u8>) -> Seq<u8> {
    secret + ed25519_public(secret)
}

impl Keypair {
    /// The secret half.
    pub open spec fn secret(self) -> Seq<u8> {
        self.bytes@.subrange(0, 32)
    }

    /// The two halves are there, belong together, and are good to be stored.
    pub open spec fn wf(self) -> bool {
        &&& is_stored_pair(self.bytes@)
        &&& self.bytes@ == pair_of(self.secret())
    }

    /// A key pair that was made at random.
    pub closed spec fn is_drawn(self) -> bool {
        call_ensures(libp2p_generate, (), Some(self.bytes))
    }

    /// Makes a new key pair.
    pub fn generate() -> (r: Keypair)
        ensures
            r.wf(),
            r.is_drawn(),
    {
        let bytes = libp2p_generate().unwrap();
        assert(bytes@ =~= bytes@.subrange(0, 32) + bytes@.subrange(32, 64));
        Keypair { bytes }
    }

    /// The text under which a key pair is stored.
    pub fn to_text(&self) -> (r: String)
        ensures
            base58_of(r@, self.bytes@),
    {
        base58::encode(self.bytes.as_slice())
    }

    /// Takes 64 stored bytes for a key pair. Only the secret half counts: the
    /// public half has to be a point of the curve, and is made anew from the
    /// secret half.
    pub fn from_stored(stored: &[u8]) -> (r: Result<Keypair, WarpError>)
        ensures
            match r {
                Ok(pair) => {
                    &&& is_stored_pair(stored@)
                    &&& pair.wf()
                    &&& pair.bytes@ == pair_of(stored@.subrange(0, 32))
                },
                Err(WarpError::Signature(_)) => !is_stored_pair(stored@),
                Err(_) => false,
            },
    {
        let secret = match dalek_secret(stored) {
            Ok(secret) => secret,
            Err(error) => return Err(WarpError::Signature(error)),
        };
        match libp2p_pair(secret.as_slice()) {
            Ok(bytes) => {
                assert(bytes@.subrange(0, 32) =~= secret@);
                Ok(Keypair { bytes })
            },
            Err(error) => Err(WarpError::Decoding(error)),
        }
    }

    /// Reads a key pair from the text under which it was stored.
    pub fn from_text(text: &str) -> (r: Result<Keypair, WarpError>)
        ensures
            match r {
                Ok(pair) => {
                    &&& is_base58(text@)
                    &&& is_stored_pair(base58_bytes(text@))
                    &&& pair.wf()
                    &&& pair.bytes@ == pair_of(base58_bytes(text@).subrange(0, 32))
                },
                Err(WarpError::Base58(_)) => !is_base58(text@),
                Err(WarpError::Signature(_)) => is_base58(text@) && !is_stored_pair(
                    base58_bytes(text@),
                ),
                Err(_) => false,
            },
    {
        match base58::decode(text) {
            Ok(bytes) => {
                proof {
                    base58::base58_round_trip(text@, bytes@, bytes@);
                }
                Keypair::from_stored(bytes.as_slice())
            },
            Err(error) => Err(WarpError::Base58(error)),
        }
    }

    /// Writes the key pair out, the secret half first.
    pub fn encode(&self) -> (r: Vec<u8>)
        ensures
            r@ == self.bytes@,
    {
        self.bytes.clone()
    }
}

/// The key pair that was stored is the one that is read: where `text` is what
/// `to_text` made of a key pair, `from_text` accepts it and returns that pair.
pub proof fn keypair_round_trip(stored: Keypair, text: Seq<char>)
    requires
        stored.wf(),
        base58_of(text, stored.bytes@),
    ensures
        is_base58(text),
        is_stored_pair(base58_bytes(text)),
        pair_of(base58_bytes(text).subrange(0, 32)) == stored.bytes@,
{
    base58::base58_round_trip(text, stored.bytes@, stored.bytes@);
}

/// A key pair is a drawn one only where the drawing returned it.
proof fn lemma_drawn(pair: Keypair)
    ensures
        pair.is_drawn() <==> call_ensures(libp2p_generate, (), Some(pair.bytes)),
{
}

/// A new key pair is drawn, and its second half is the public key of the first.
pub proof fn new_pair_is_drawn(pair: Keypair)
    requires
        call_ensures(Keypair::generate, (), pair),
    ensures
        pair.is_drawn(),
        pair.bytes@.len() == 64,
        pair.bytes@.subrange(32, 64) == ed25519_public(pair.bytes@.subrange(0, 32)),
{
    lemma_drawn(pair);
    let secret = pair.bytes@.subrange(0, 32);
    assert(ed25519_public(secret) =~= pair.bytes@.subrange(32, 64));
}

/// What is written is what is read: the text of a sound key pair is read as that
/// key pair.
pub proof fn written_pair_is_read(
    pair: Keypair,
    written: String,
    text: &str,
    read: Result<Keypair, WarpError>,
)
    requires
        pair.wf(),
        call_ensures(Keypair::to_text, (&pair,), written),
        text@ == written@,
        call_ensures(Keypair::from_text, (text,), read),
    ensures
        read matches Ok(same) && same.bytes@ == pair.bytes@,
{
    keypair_round_trip(pair, text@);
}

/// A text is read as a key pair exactly where it is base58 of 64 bytes whose
/// second half is a point of the curve. The secret half is that of the text, and
/// the public half is its public key.
pub proof fn read_pair_keeps_the_secret(text: &str, read: Result<Keypair, WarpError>)
    requires
        call_ensures(Keypair::from_text, (text,), read),
    ensures
        read is Ok <==> {
            &&& is_base58(text@)
            &&& base58_bytes(text@).len() == 64
            &&& ed25519_point(base58_bytes(text@).subrange(32, 64))
        },
        read matches Ok(pair) ==> {
            &&& pair.bytes@.len() == 64
            &&& pair.bytes@.subrange(0, 32) == base58_bytes(text@).subrange(0, 32)
            &&& pair.bytes@.subrange(32, 64) == ed25519_public(pair.bytes@.subrange(0, 32))
        },
        read matches Err(error) ==> (error is Base58 <==> !is_base58(text@)) && (error is Signature
            <==> is_base58(text@)),
{
    if let Ok(pair) = read {
        let secret = base58_bytes(text@).subrange(0, 32);
        assert(pair.bytes@.subrange(0, 32) =~= secret);
        assert(pair.bytes@.subrange(32, 64) =~= ed25519_public(secret));
    }
}

/// A key pair is written out as it is.
pub proof fn pair_is_written_out(pair: Keypair, bytes: Vec<u8>)
    requires
        call_ensures(Keypair::encode, (&pair,), bytes),
    ensures
        bytes@ == pair.bytes@,
{
}

} // verus!
