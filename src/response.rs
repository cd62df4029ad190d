//! Decoding of the device's reply to a key request.
use vstd::prelude::*;

use crate::error::Error;

verus! {

/// Length of a BIP-32 chain code.
pub const CHAIN_CODE_LEN: usize = 32;

/// The two parts of a key reply that a key is built from. Both borrow the
/// reply they were decoded from; `chain_code` is always 32 bytes long.
#[derive(Debug)]
pub struct KeyRequestAnswer<'a> {
    pub pub_key: &'a [u8],
    pub chain_code: &'a [u8],
}

/// Whether `b` has the layout of a key reply: a length byte and that many
/// bytes of public key, a length byte and that many bytes of base58 address,
/// then exactly 32 bytes of chain code.
pub open spec fn is_key_response(b: Seq<u8>) -> bool {
    &&& b.len() > 0
    &&& 1 + b[0] < b.len()
    &&& b.len() == 1 + b[0] + 1 + b[1 + b[0]] + 32
}

/// The public key and the chain code that a well-formed key reply carries,
/// or `None` for a reply of any other layout.
pub open spec fn decode_key_response(b: Seq<u8>) -> Option<(Seq<u8>, Seq<u8>)> {
    if is_key_response(b) {
        Some((b.subrange(1, 1 + b[0]), b.subrange(b.len() - 32, b.len() as int)))
    } else {
        None
    }
}

/// The reply that carries public key `pk`, base58 address `b58` and chain
/// code `cc`.
pub open spec fn key_response_layout(pk: Seq<u8>, b58: Seq<u8>, cc: Seq<u8>) -> Seq<u8> {
    seq![pk.len() as u8] + pk + seq![b58.len() as u8] + b58 + cc
}

/// What `KeyRequestAnswer::try_from` returns for the reply `b`.
pub open spec fn decoded_as(b: Seq<u8>, r: Result<KeyRequestAnswer, Error>) -> bool {
    match r {
        Ok(a) => decode_key_response(b) == Some((a.pub_key@, a.chain_code@)),
        Err(e) => decode_key_response(b) is None && e is InvalidLedgerResponse,
    }
}

impl<'a> KeyRequestAnswer<'a> {
    /// Splits a key reply into its public key and its chain code; the base58
    /// address that the device sends between them is skipped. A reply of
    /// any other layout is refused, and nothing past its end is read.
    pub fn try_from(bytes: &'a [u8]) -> (r: Result<KeyRequestAnswer<'a>, Error>)
        ensures
            decoded_as(bytes@, r),
            r is Ok ==> r->Ok_0.chain_code@.len() == CHAIN_CODE_LEN,
    {
        let len = bytes.len();
        if len == 0 {
            return Err(Error::InvalidLedgerResponse);
        }
        // read pub key
        let pk_len = bytes[0] as usize;
        if len <= 1 + pk_len {
            return Err(Error::InvalidLedgerResponse);
        }
        let pub_key = &bytes[1..1 + pk_len];

        // skip legacy base58 address returned
        let b58_len = bytes[1 + pk_len] as usize;
        if len != 1 + pk_len + 1 + b58_len + CHAIN_CODE_LEN {
            return Err(Error::InvalidLedgerResponse);
        }

        // read chain code
        let chain_code = &bytes[len - CHAIN_CODE_LEN..len];
        Ok(KeyRequestAnswer { pub_key, chain_code })
    }
}

/// A reply laid out from a public key, a base58 address and a 32-byte chain
/// code decodes to that public key and that chain code, unchanged.
pub proof fn lemma_key_response_round_trip(pk: Seq<u8>, b58: Seq<u8>, cc: Seq<u8>)
    requires
        pk.len() < 256,
        b58.len() < 256,
        cc.len() == CHAIN_CODE_LEN,
    ensures
        decode_key_response(key_response_layout(pk, b58, cc)) == Some((pk, cc)),
{
    let b = key_response_layout(pk, b58, cc);
    assert(b[0] as int == pk.len());
    assert(b[1 + pk.len() as int] as int == b58.len());
    assert(b.subrange(1, 1 + pk.len() as int) =~= pk);
    assert(b.subrange(b.len() - 32, b.len() as int) =~= cc);
}

/// A reply whose total length differs from the one its two length bytes
/// announce is refused, whatever else it holds.
pub proof fn lemma_wrong_length_refused(b: Seq<u8>)
    requires
        b.len() > 0,
        1 + b[0] < b.len(),
        b.len() != 1 + b[0] + 1 + b[1 + b[0]] + 32,
    ensures
        decode_key_response(b) is None,
        forall|r: Result<KeyRequestAnswer, Error>| decoded_as(b, r) ==> r is Err,
{
}

/// A reply too short to hold the length byte of its base58 address (an
/// empty one included) is refused.
pub proof fn lemma_truncated_refused(b: Seq<u8>)
    requires
        b.len() == 0 || b.len() <= 1 + b[0],
    ensures
        decode_key_response(b) is None,
        forall|r: Result<KeyRequestAnswer, Error>| decoded_as(b, r) ==> r is Err,
{
}

/// Decoding one reply twice gives the same public key and chain code, or
/// the same refusal, both times.
pub proof fn lemma_decode_twice(
    b: Seq<u8>,
    r1: Result<KeyRequestAnswer, Error>,
    r2: Result<KeyRequestAnswer, Error>,
)
    requires
        decoded_as(b, r1),
        decoded_as(b, r2),
    ensures
        r1 is Ok <==> r2 is Ok,
        r1 is Ok ==> r1->Ok_0.pub_key@ == r2->Ok_0.pub_key@ && r1->Ok_0.chain_code@
            == r2->Ok_0.chain_code@,
        r1 is Err ==> r1->Err_0 is InvalidLedgerResponse && r2->Err_0 is InvalidLedgerResponse,
{
}

} // verus!
