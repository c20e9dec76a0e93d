use warp_mp_ipfs::{Cid, Keypair, WarpError};

const SECRET: [u8; 32] = [
    157, 97, 177, 157, 239, 253, 90, 96, 186, 132, 74, 244, 146, 236, 44, 196, 68, 73, 197, 105,
    123, 50, 105, 25, 112, 59, 172, 3, 28, 174, 127, 96,
];
const PUBLIC: [u8; 32] = [
    215, 90, 152, 1, 130, 177, 10, 183, 213, 75, 254, 211, 201, 100, 7, 58, 14, 225, 114, 243, 218,
    166, 35, 37, 175, 2, 26, 104, 247, 7, 81, 26,
];

fn joined(secret: &[u8], public: &[u8]) -> Vec<u8> {
    let mut bytes = secret.to_vec();
    bytes.extend_from_slice(public);
    bytes
}

#[test]
fn base58_of_known_bytes() {
    let pair = Keypair { bytes: vec![0x04, 0x30, 0x5e, 0x2b, 0x24, 0x73, 0xf0, 0x58] };
    assert_eq!(pair.to_text(), "he11owor1d");
}

#[test]
fn base58_keeps_zeros_in_front() {
    assert_eq!(Keypair { bytes: vec![0, 0, 1] }.to_text(), "112");
    assert_eq!(Keypair { bytes: vec![0, 0] }.to_text(), "11");
    assert_eq!(Keypair { bytes: vec![] }.to_text(), "");
}

#[test]
fn stored_pair_is_read() {
    let stored = joined(&SECRET, &PUBLIC);
    let pair = Keypair::from_stored(&stored).unwrap();
    assert_eq!(pair.bytes, stored);
    assert_eq!(pair.encode(), stored);
    let read = Keypair::from_text(&pair.to_text()).unwrap();
    assert_eq!(read, pair);
}

#[test]
fn public_half_is_made_anew() {
    // The base point, which is not the public key of this secret key.
    let mut point = [0x66u8; 32];
    point[0] = 0x58;
    let pair = Keypair::from_stored(&joined(&SECRET, &point)).unwrap();
    assert_eq!(pair.bytes, joined(&SECRET, &PUBLIC));
}

#[test]
fn generated_pair_is_read_back() {
    let pair = Keypair::generate();
    assert_eq!(pair.bytes.len(), 64);
    let read = Keypair::from_text(&pair.to_text()).unwrap();
    assert_eq!(read, pair);
}

#[test]
fn two_generated_pairs_differ() {
    assert_ne!(Keypair::generate(), Keypair::generate());
}

#[test]
fn text_outside_the_alphabet_is_refused() {
    for text in ["0", "I", "O", "l", "abc def", "ä"] {
        assert!(matches!(Keypair::from_text(text), Err(WarpError::Base58(_))));
    }
}

#[test]
fn wrong_length_is_refused() {
    assert!(matches!(Keypair::from_text("he11owor1d"), Err(WarpError::Signature(_))));
    assert!(matches!(Keypair::from_text(""), Err(WarpError::Signature(_))));
    assert!(matches!(Keypair::from_stored(&SECRET), Err(WarpError::Signature(_))));
}

#[test]
fn half_that_is_no_point_is_refused() {
    let mut nowhere = [0u8; 32];
    nowhere[0] = 2;
    let read = Keypair::from_stored(&joined(&SECRET, &nowhere));
    assert!(matches!(read, Err(WarpError::Signature(_))));
}

const CID_V0: &str = "QmYwAPJzv5CZsnA625s3Xf2nemtYgPpHdWEz79ojWnPbdG";
const CID_V1: &str = "bafyreibjo4xmgaevkgud7mbifn3dzp4v4lyaui4yvqp3f2bqwtxcjrdqg4";

#[test]
fn content_ids_are_read_back() {
    for text in [CID_V0, CID_V1] {
        let cid = Cid::parse(text).unwrap();
        assert_eq!(cid.as_text(), text);
        assert_eq!(Cid::parse(cid.as_text()).unwrap(), cid);
    }
}

#[test]
fn text_that_is_no_content_id_is_refused() {
    for text in ["", "x", "hello world", "Qm"] {
        assert!(matches!(Cid::parse(text), Err(WarpError::Cid(_))));
    }
}
