//! Block headers and their consensus encoding.

use crate::error::Error;
use crate::hex::{decoded, from_hex, HexError};
use vstd::prelude::*;
use vstd::string::*;

verus! {

/// Why bytes could not be read as a consensus-encoded structure.
#[derive(Debug)]
pub enum ConsensusError {
    /// The bytes end before the structure does.
    Io(std::io::Error),
    /// The bytes do not parse; the decoder's message.
    ParseFailed(&'static str),
    /// Any other failure of the decoder, by its message.
    Other(String),
}

/// A block header: all of a block but its transactions.
#[derive(Debug, Clone, Copy, PartialEq, Eq)]
pub struct BlockHeader {
    /// The protocol version.
    pub version: u32,
    /// The hash of the block before this one, in the byte order of the digest.
    pub prev_blockhash: [u8; 32],
    /// The root of the merkle tree of the block's transactions, in the byte order of the digest.
    pub merkle_root: [u8; 32],
    /// The time of the block as the miner gave it.
    pub time: u32,
    /// The target, in its compact form.
    pub bits: u32,
    /// The nonce.
    pub nonce: u32,
}

/// The number of bytes of an encoded header.
pub const HEADER_LEN: usize = 80;

/// The number that four bytes from `at` on write, least significant byte first.
pub open spec fn le_u32(b: Seq<u8>, at: int) -> u32 {
    (b[at] + 0x100 * b[at + 1] + 0x1_0000 * b[at + 2] + 0x100_0000 * b[at + 3]) as u32
}

impl BlockHeader {
    /// The header is what the 80 bytes encode: the version, the two hashes,
    /// the time, the target and the nonce, in that order.
    pub open spec fn encoded_by(self, b: Seq<u8>) -> bool {
        &&& b.len() == HEADER_LEN
        &&& self.version == le_u32(b, 0)
        &&& self.prev_blockhash@ == b.subrange(4, 36)
        &&& self.merkle_root@ == b.subrange(36, 68)
        &&& self.time == le_u32(b, 68)
        &&& self.bits == le_u32(b, 72)
        &&& self.nonce == le_u32(b, 76)
    }
}

/// What reading bytes as a header gives: the header where there are exactly
/// 80 of them, else a failure that tells too few bytes from too many.
pub open spec fn header_decoded(b: Seq<u8>, r: Result<BlockHeader, ConsensusError>) -> bool {
    match r {
        Ok(h) => h.encoded_by(b),
        Err(e) => if b.len() < HEADER_LEN {
            e is Io
        } else {
            b.len() > HEADER_LEN && e is ParseFailed
        },
    }
}

/// `bitcoin::consensus::deserialize` for a `BlockHeader`, handed out field by
/// field. The decoder reads four bytes for each number and 32 for each hash
/// and fails with an I/O error where they run out; bytes left over make it
/// fail with `ParseFailed`. No field is checked against another. Each number
/// is put together least significant byte first; this release then passes it
/// through `u32::from_le`, which swaps its bytes on a big-endian machine. The
/// same call is made here once more: it undoes that swap there and changes
/// nothing on a little-endian machine, so the numbers are as stated on both.
#[verifier::external_body]
fn consensus_decode_header(data: &[u8]) -> (r: Result<BlockHeader, ConsensusError>)
    ensures
        header_decoded(data@, r),
{
    match bitcoin::consensus::deserialize::<bitcoin::BlockHeader>(data) {
        Ok(h) => Ok(BlockHeader {
            version: u32::from_le(h.version),
            prev_blockhash: bitcoin::hashes::Hash::into_inner(h.prev_blockhash),
            merkle_root: bitcoin::hashes::Hash::into_inner(h.merkle_root),
            time: u32::from_le(h.time),
            bits: u32::from_le(h.bits),
            nonce: u32::from_le(h.nonce),
        }),
        Err(bitcoin::consensus::encode::Error::Io(e)) => Err(ConsensusError::Io(e)),
        Err(bitcoin::consensus::encode::Error::ParseFailed(m)) => Err(ConsensusError::ParseFailed(m)),
        Err(e) => Err(ConsensusError::Other(e.to_string())),
    }
}

/// Reads the consensus encoding of one block header.
pub fn deserialize_header(data: &[u8]) -> (r: Result<BlockHeader, Error>)
    ensures
        match r {
            Ok(h) => h.encoded_by(data@),
            Err(e) => e matches Error::Bitcoin(c) && header_decoded(
                data@,
                Err::<BlockHeader, ConsensusError>(c),
            ),
        },
{
    match consensus_decode_header(data) {
        Ok(h) => Ok(h),
        Err(c) => Err(Error::Bitcoin(c)),
    }
}

/// Reads a block header from the hexadecimal text of its encoding. Text that
/// is not hexadecimal fails as such; bytes that are no header fail as the
/// decoder says.
pub fn from_hex_header(s: &str) -> (r: Result<BlockHeader, Error>)
    ensures
        match decoded(s.spec_bytes()) {
            Err(h) => r matches Err(Error::Hex(g)) && g == h,
            Ok(bytes) => match r {
                Ok(h) => h.encoded_by(bytes),
                Err(e) => e matches Error::Bitcoin(c) && header_decoded(
                    bytes,
                    Err::<BlockHeader, ConsensusError>(c),
                ),
            },
        },
{
    match from_hex(s) {
        Ok(bytes) => deserialize_header(bytes.as_slice()),
        Err(e) => Err(e),
    }
}

/// The headers are what the bytes encode, one header after the other, each
/// in 80 bytes and none left over.
pub open spec fn split_into(raw: Seq<u8>, headers: Seq<BlockHeader>) -> bool {
    &&& raw.len() == HEADER_LEN * headers.len()
    &&& forall|k: int|
        0 <= k < headers.len() ==> (#[trigger] headers[k]).encoded_by(
            raw.subrange(HEADER_LEN * k, HEADER_LEN * k + HEADER_LEN),
        )
}

/// Splits the concatenated headers of a batch into the headers, in order.
/// Every 80 bytes are one header. Bytes whose number is no multiple of 80 end
/// in a piece that is too short for a header, and the failure is that of
/// reading this piece. How many headers a batch announces is not looked at:
/// the caller compares.
pub fn split_headers(raw: &[u8]) -> (r: Result<Vec<BlockHeader>, Error>)
    ensures
        match r {
            Ok(headers) => split_into(raw@, headers@),
            Err(e) => raw@.len() % 80 != 0 && (e matches Error::Bitcoin(c) && c is Io),
        },
{
    let mut headers: Vec<BlockHeader> = Vec::new();
    let mut at: usize = 0;
    while at < raw.len()
        invariant
            at <= raw.len(),
            at == HEADER_LEN * headers.len(),
            forall|k: int|
                0 <= k < headers.len() ==> (#[trigger] headers[k]).encoded_by(
                    raw@.subrange(HEADER_LEN * k, HEADER_LEN * k + HEADER_LEN),
                ),
        decreases raw.len() - at,
    {
        let end = if raw.len() - at >= HEADER_LEN {
            at + HEADER_LEN
        } else {
            raw.len()
        };
        let piece = vstd::slice::slice_subrange(raw, at, end);
        match deserialize_header(piece) {
            Ok(h) => {
                headers.push(h);
            },
            Err(e) => {
                return Err(e);
            },
        }
        at = end;
    }
    Ok(headers)
}

} // verus!
