//! The command envelopes sent to the device, and the encoding of a
//! derivation path into the payload of a key request.
use vstd::prelude::*;

use crate::error::Error;

verus! {

/// The deepest derivation path that the device accepts.
pub const MAX_PATH_DEPTH: usize = 10;

/// Class byte of every command of the Bitcoin application.
pub const CLA_BTC: u8 = 0xE0;

/// Instruction byte of the "get wallet public key" command.
pub const INS_GET_WALLET_PUBLIC_KEY: u8 = 0x40;

/// Instruction byte of the "get firmware version" command.
pub const INS_GET_FIRMWARE_VERSION: u8 = 0xC4;

/// One command for the device: a five-byte header and its payload.
#[derive(Debug)]
pub struct CommandEnvelope {
    pub cla: u8,
    pub ins: u8,
    pub p1: u8,
    pub p2: u8,
    pub length: u8,
    pub data: Vec<u8>,
}

/// The four bytes of `x`, most significant first.
pub open spec fn be_bytes(x: u32) -> Seq<u8> {
    seq![
        (x / 0x100_0000) as u8,
        ((x / 0x1_0000) % 0x100) as u8,
        ((x / 0x100) % 0x100) as u8,
        (x % 0x100) as u8,
    ]
}

/// The child numbers of `path`, each as four big-endian bytes, in order.
pub open spec fn path_bytes(path: Seq<u32>) -> Seq<u8>
    decreases path.len(),
{
    if path.len() == 0 {
        seq![]
    } else {
        path_bytes(path.drop_last()) + be_bytes(path.last())
    }
}

/// The payload of a key request: the depth of the path, then its child
/// numbers.
pub open spec fn key_request_payload(path: Seq<u32>) -> Seq<u8> {
    seq![path.len() as u8] + path_bytes(path)
}

/// Big-endian bytes of one child number.
fn push_be_bytes(data: &mut Vec<u8>, x: u32)
    ensures
        final(data)@ == old(data)@ + be_bytes(x),
{
    let b0 = (x >> 24u32) as u8;
    let b1 = ((x >> 16u32) & 0xff) as u8;
    let b2 = ((x >> 8u32) & 0xff) as u8;
    let b3 = (x & 0xff) as u8;
    assert(b0 == (x / 0x100_0000) as u8 && b1 == ((x / 0x1_0000) % 0x100) as u8
        && b2 == ((x / 0x100) % 0x100) as u8 && b3 == (x % 0x100) as u8) by (bit_vector)
        requires
            b0 == (x >> 24u32) as u8,
            b1 == ((x >> 16u32) & 0xff) as u8,
            b2 == ((x >> 8u32) & 0xff) as u8,
            b3 == (x & 0xff) as u8,
    ;
    data.push(b0);
    data.push(b1);
    data.push(b2);
    data.push(b3);
    assert(final(data)@ =~= old(data)@ + be_bytes(x));
}

/// The command that asks the device for the extended public key at `path`,
/// given as raw child numbers (hardened ones with the high bit set).
/// Paths deeper than ten levels are refused before anything is built.
pub fn key_request(path: &[u32]) -> (r: Result<CommandEnvelope, Error>)
    ensures
        path@.len() > MAX_PATH_DEPTH <==> r is Err,
        r is Err ==> r->Err_0 is DerivationPathTooLong,
        r is Ok ==> {
            let c = r->Ok_0;
            &&& c.cla == CLA_BTC
            &&& c.ins == INS_GET_WALLET_PUBLIC_KEY
            &&& c.p1 == 0
            &&& c.p2 == 0
            &&& c.length as int == c.data@.len()
            &&& c.data@ == key_request_payload(path@)
        },
{
    let path_len = path.len();
    if path_len > MAX_PATH_DEPTH {
        return Err(Error::DerivationPathTooLong);
    }
    let mut data: Vec<u8> = Vec::with_capacity(1 + path_len * 4);
    data.push(path_len as u8);
    let mut i: usize = 0;
    while i < path_len
        invariant
            path_len == path@.len(),
            path_len <= MAX_PATH_DEPTH,
            i <= path_len,
            data@ == seq![path_len as u8] + path_bytes(path@.subrange(0, i as int)),
        decreases path_len - i,
    {
        proof {
            assert(path@.subrange(0, i + 1).drop_last() =~= path@.subrange(0, i as int));
        }
        push_be_bytes(&mut data, path[i]);
        i = i + 1;
        assert(data@ =~= seq![path_len as u8] + path_bytes(path@.subrange(0, i as int)));
    }
    assert(path@.subrange(0, path_len as int) =~= path@);
    proof {
        lemma_path_bytes_len(path@);
    }
    Ok(CommandEnvelope {
        cla: CLA_BTC,
        ins: INS_GET_WALLET_PUBLIC_KEY,
        p1: 0x00,
        p2: 0x00,
        length: data.len() as u8,
        data,
    })
}

/// The command that asks the device for its firmware version; it carries no
/// payload.
pub fn firmware_request() -> (r: CommandEnvelope)
    ensures
        r.cla == CLA_BTC,
        r.ins == INS_GET_FIRMWARE_VERSION,
        r.p1 == 0,
        r.p2 == 0,
        r.length == 0,
        r.data@.len() == 0,
{
    CommandEnvelope {
        cla: CLA_BTC,
        ins: INS_GET_FIRMWARE_VERSION,
        p1: 0,
        p2: 0,
        length: 0,
        data: Vec::new(),
    }
}

/// Four bytes for each child number.
pub proof fn lemma_path_bytes_len(path: Seq<u32>)
    ensures
        path_bytes(path).len() == 4 * path.len(),
    decreases path.len(),
{
    if path.len() > 0 {
        lemma_path_bytes_len(path.drop_last());
    }
}

/// Each child number of `path` stands, as four big-endian bytes, at its own
/// place in `path_bytes(path)`.
pub proof fn lemma_path_bytes_groups(path: Seq<u32>)
    ensures
        path_bytes(path).len() == 4 * path.len(),
        forall|i: int|
            0 <= i < path.len() ==> path_bytes(path).subrange(4 * i, 4 * i + 4)
                == #[trigger] be_bytes(path[i]),
    decreases path.len(),
{
    lemma_path_bytes_len(path);
    if path.len() > 0 {
        let front = path.drop_last();
        lemma_path_bytes_groups(front);
        assert forall|i: int| 0 <= i < path.len() implies path_bytes(path).subrange(
            4 * i,
            4 * i + 4,
        ) == #[trigger] be_bytes(path[i]) by {
            if i < front.len() {
                assert(front[i] == path[i]);
                assert(path_bytes(path).subrange(4 * i, 4 * i + 4) =~= path_bytes(front).subrange(
                    4 * i,
                    4 * i + 4,
                ));
            } else {
                assert(path_bytes(path).subrange(4 * i, 4 * i + 4) =~= be_bytes(path.last()));
            }
        }
    }
}

/// For every path of at most ten levels, the payload of its key request is
/// one byte holding the depth, then four big-endian bytes for each child
/// number, in order.
pub proof fn lemma_key_request_layout(path: Seq<u32>)
    requires
        path.len() <= MAX_PATH_DEPTH,
    ensures
        key_request_payload(path).len() == 1 + 4 * path.len(),
        key_request_payload(path)[0] as int == path.len(),
        forall|i: int|
            0 <= i < path.len() ==> key_request_payload(path).subrange(1 + 4 * i, 5 + 4 * i)
                == #[trigger] be_bytes(path[i]),
{
    lemma_path_bytes_groups(path);
    let p = key_request_payload(path);
    assert forall|i: int| 0 <= i < path.len() implies p.subrange(1 + 4 * i, 5 + 4 * i)
        == #[trigger] be_bytes(path[i]) by {
        assert(p.subrange(1 + 4 * i, 5 + 4 * i) =~= path_bytes(path).subrange(4 * i, 4 * i + 4));
    }
}

} // verus!
