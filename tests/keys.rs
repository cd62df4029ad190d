use bitcoin::network::constants::Network;
use bitcoin::secp256k1;
use ledger_bitcoin::{assemble_key, extended_key_from_parts, key_from_response, Error, KeyRequestAnswer};

const HARDENED: u32 = 0x8000_0000;

// the generator point of secp256k1, compressed
const G: [u8; 33] = [
    0x02, 0x79, 0xBE, 0x66, 0x7E, 0xF9, 0xDC, 0xBB, 0xAC, 0x55, 0xA0, 0x62, 0x95, 0xCE, 0x87, 0x0B,
    0x07, 0x02, 0x9B, 0xFC, 0xDB, 0x2D, 0xCE, 0x28, 0xD9, 0x59, 0xF2, 0x81, 0x5B, 0x16, 0xF8, 0x17,
    0x98,
];

fn reply(pk: &[u8], cc: &[u8]) -> Vec<u8> {
    let mut v = vec![pk.len() as u8];
    v.extend_from_slice(pk);
    let b58 = b"3J98t1WpEZ73CNmQviecrnyiWrnqRhWNLy";
    v.push(b58.len() as u8);
    v.extend_from_slice(b58);
    v.extend_from_slice(cc);
    v
}

#[test]
fn key_is_built_from_a_reply() {
    let cc: Vec<u8> = (0..32).collect();
    let raw = reply(&G, &cc);
    let path = [HARDENED | 49, HARDENED, HARDENED, 7];
    let k = key_from_response(Network::Testnet, &path, &raw).unwrap();
    assert_eq!(k.network, Network::Testnet);
    assert_eq!(k.depth, 4);
    assert_eq!(k.parent_fingerprint, [0, 0, 0, 0]);
    assert_eq!(k.child_number, 7);
    assert_eq!(&k.public_key.serialize()[..], &G[..]);
    assert_eq!(&k.chain_code[..], &cc[..]);
}

#[test]
fn master_key_has_child_number_zero() {
    let raw = reply(&G, &[5u8; 32]);
    let k = key_from_response(Network::Bitcoin, &[], &raw).unwrap();
    assert_eq!(k.depth, 0);
    assert_eq!(k.child_number, 0);
    assert_eq!(k.chain_code, [5u8; 32]);
}

#[test]
fn invalid_point_gives_curve_error() {
    let raw = reply(&[0xAB, 0xCD], &[0u8; 32]);
    let r = key_from_response(Network::Bitcoin, &[1], &raw);
    assert!(matches!(r, Err(Error::Secp256k1Error(secp256k1::Error::InvalidPublicKey))));
    let mut not_on_curve = G;
    not_on_curve[0] = 0x05;
    let raw = reply(&not_on_curve, &[0u8; 32]);
    let r = key_from_response(Network::Bitcoin, &[1], &raw);
    assert!(matches!(r, Err(Error::Secp256k1Error(_))));
}

#[test]
fn malformed_reply_gives_invalid_response() {
    let mut raw = reply(&G, &[0u8; 32]);
    raw.pop();
    let r = key_from_response(Network::Bitcoin, &[1], &raw);
    assert!(matches!(r, Err(Error::InvalidLedgerResponse)));
}

#[test]
fn too_deep_path_gives_path_error() {
    let raw = reply(&G, &[0u8; 32]);
    let r = key_from_response(Network::Bitcoin, &[0u32; 11], &raw);
    assert!(matches!(r, Err(Error::DerivationPathTooLong)));
}

#[test]
fn assemble_key_uses_the_answer() {
    let cc = [0x42u8; 32];
    let a = KeyRequestAnswer { pub_key: &G[..], chain_code: &cc[..] };
    let k = assemble_key(Network::Regtest, &[HARDENED | 44, 3], &a).unwrap();
    assert_eq!(k.depth, 2);
    assert_eq!(k.child_number, 3);
    assert_eq!(k.chain_code, cc);
    assert_eq!(k.network, Network::Regtest);
}

#[test]
fn parse_error_is_passed_on() {
    let cc = [1u8; 32];
    let r = extended_key_from_parts(
        Network::Bitcoin,
        &[2],
        Err(secp256k1::Error::InvalidPublicKey),
        &cc,
    );
    assert!(matches!(r, Err(Error::Secp256k1Error(secp256k1::Error::InvalidPublicKey))));
    let pk = secp256k1::PublicKey::from_slice(&G).unwrap();
    let k = extended_key_from_parts(Network::Bitcoin, &[2, 9], Ok(pk), &cc).unwrap();
    assert_eq!(k.public_key, pk);
    assert_eq!(k.child_number, 9);
    assert_eq!(k.depth, 2);
}

#[test]
fn curve_error_converts() {
    let e = Error::from(secp256k1::Error::InvalidPublicKey);
    assert!(matches!(e, Error::Secp256k1Error(secp256k1::Error::InvalidPublicKey)));
}
