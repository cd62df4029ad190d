//! Assembly of an extended public key from a decoded key reply.
use vstd::prelude::*;

use bitcoin::network::constants::Network;
use bitcoin::secp256k1::Error as CurveError;
use bitcoin::secp256k1::PublicKey;

use crate::error::Error;
use crate::request::MAX_PATH_DEPTH;
use crate::response::{decode_key_response, KeyRequestAnswer, CHAIN_CODE_LEN};

verus! {

/// A secp256k1 public key (a point of the curve).
#[verifier::external_type_specification]
#[verifier::external_body]
pub struct ExPublicKey(PublicKey);

/// The Bitcoin network a key is meant for.
#[verifier::external_type_specification]
#[verifier::external_body]
pub struct ExNetwork(Network);

/// What secp256k1 makes of the serialized point `data`: the point, or the
/// error it reports.
pub uninterp spec fn parsed_public_key(data: Seq<u8>) -> Result<PublicKey, CurveError>;

/// Relies on `secp256k1::PublicKey::from_slice` (secp256k1 0.15): parses a
/// serialized point, and libsecp256k1 accepts only 33-byte (compressed) and
/// 65-byte (uncompressed or hybrid) encodings; an empty slice is refused
/// before the parser runs.
#[verifier::external_body]
fn parse_public_key(data: &[u8]) -> (r: Result<PublicKey, CurveError>)
    ensures
        r == parsed_public_key(data@),
        r is Ok ==> data@.len() == 33 || data@.len() == 65,
{
    PublicKey::from_slice(data)
}

/// An extended public key as the device hands it out. The device does not
/// report the fingerprint of the parent key, so `parent_fingerprint` is
/// always four zero bytes: a consumer that looks parents up by fingerprint
/// will not find them.
#[derive(Debug)]
pub struct ExtendedKey {
    pub network: Network,
    pub depth: u8,
    pub parent_fingerprint: [u8; 4],
    pub child_number: u32,
    pub public_key: PublicKey,
    pub chain_code: [u8; 32],
}

/// The child number that a key at the end of `path` was derived with: the
/// last one of the path, or 0 for the master key.
pub open spec fn last_child_number(path: Seq<u32>) -> u32 {
    if path.len() == 0 {
        0
    } else {
        path.last()
    }
}

/// Whether `k` is the key at `path` on `network`, with public key `pk` and
/// chain code `cc`.
pub open spec fn is_key_at(
    k: ExtendedKey,
    network: Network,
    path: Seq<u32>,
    pk: PublicKey,
    cc: Seq<u8>,
) -> bool {
    &&& k.network == network
    &&& k.depth as int == path.len()
    &&& k.parent_fingerprint@ == seq![0u8, 0u8, 0u8, 0u8]
    &&& k.child_number == last_child_number(path)
    &&& k.public_key == pk
    &&& k.chain_code@ == cc
}

/// Builds the key at `path` on `network` from the outcome of parsing its
/// public key and from its 32-byte chain code; a parse error is passed on.
pub fn extended_key_from_parts(
    network: Network,
    path: &[u32],
    parsed: Result<PublicKey, CurveError>,
    chain_code: &[u8],
) -> (r: Result<ExtendedKey, Error>)
    requires
        path@.len() <= 255,
        chain_code@.len() == CHAIN_CODE_LEN,
    ensures
        match parsed {
            Ok(pk) => r is Ok && is_key_at(r->Ok_0, network, path@, pk, chain_code@),
            Err(e) => r == Err::<ExtendedKey, Error>(Error::Secp256k1Error(e)),
        },
{
    let public_key = match parsed {
        Ok(pk) => pk,
        Err(e) => {
            return Err(Error::from(e));
        },
    };
    let mut cc: [u8; 32] = [0u8; 32];
    let mut i: usize = 0;
    while i < CHAIN_CODE_LEN
        invariant
            chain_code@.len() == CHAIN_CODE_LEN,
            i <= CHAIN_CODE_LEN,
            forall|j: int| 0 <= j < i ==> cc@[j] == chain_code@[j],
        decreases CHAIN_CODE_LEN - i,
    {
        cc[i] = chain_code[i];
        i = i + 1;
    }
    assert(cc@ =~= chain_code@);
    let child_number: u32 = if path.len() == 0 {
        0
    } else {
        path[path.len() - 1]
    };
    let k = ExtendedKey {
        network,
        depth: path.len() as u8,
        parent_fingerprint: [0u8; 4],
        child_number,
        public_key,
        chain_code: cc,
    };
    assert(k.parent_fingerprint@ =~= seq![0u8, 0u8, 0u8, 0u8]);
    Ok(k)
}

/// Builds the key at `path` on `network` from a decoded key reply. It
/// fails, with secp256k1's error, exactly when the reply's public key is
/// not a point that secp256k1 accepts.
pub fn assemble_key(network: Network, path: &[u32], answer: &KeyRequestAnswer) -> (r: Result<
    ExtendedKey,
    Error,
>)
    requires
        path@.len() <= 255,
        answer.chain_code@.len() == CHAIN_CODE_LEN,
    ensures
        match parsed_public_key(answer.pub_key@) {
            Ok(pk) => r is Ok && is_key_at(r->Ok_0, network, path@, pk, answer.chain_code@),
            Err(e) => r == Err::<ExtendedKey, Error>(Error::Secp256k1Error(e)),
        },
{
    let parsed = parse_public_key(answer.pub_key);
    extended_key_from_parts(network, path, parsed, answer.chain_code)
}

/// Turns the device's raw reply to the key request for `path` into the
/// extended key on `network`: the reply is decoded, then its public key is
/// parsed. A path deeper than ten levels, a reply of the wrong layout and a
/// public key that secp256k1 refuses each give their own error.
pub fn key_from_response(network: Network, path: &[u32], raw: &[u8]) -> (r: Result<
    ExtendedKey,
    Error,
>)
    ensures
        path@.len() > MAX_PATH_DEPTH ==> r == Err::<ExtendedKey, Error>(
            Error::DerivationPathTooLong,
        ),
        path@.len() <= MAX_PATH_DEPTH ==> match decode_key_response(raw@) {
            None => r is Err && r->Err_0 is InvalidLedgerResponse,
            Some(fields) => match parsed_public_key(fields.0) {
                Ok(pk) => r is Ok && is_key_at(r->Ok_0, network, path@, pk, fields.1),
                Err(e) => r == Err::<ExtendedKey, Error>(Error::Secp256k1Error(e)),
            },
        },
{
    if path.len() > MAX_PATH_DEPTH {
        return Err(Error::DerivationPathTooLong);
    }
    let answer = KeyRequestAnswer::try_from(raw)?;
    assemble_key(network, path, &answer)
}

} // verus!
