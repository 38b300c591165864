//! The trailer of an encoded storage block: one byte that names the
//! compression, then the checksum of the block in eight bytes.

use bytes::Buf;
use vstd::prelude::*;
use vstd::slice::slice_subrange;

verus! {

/// The length of a block trailer in bytes.
pub const TRAILER_LEN: usize = 9;

/// What the trailer of an encoded block holds.
#[derive(Clone, Copy, Debug, PartialEq, Eq, Structural)]
pub struct BlockTrailer {
    /// The byte that names the compression of the block.
    pub compression: u8,
    /// The checksum of the block.
    pub checksum: u64,
}

/// The number that eight bytes spell, the lowest byte first.
pub open spec fn le_u64(b: Seq<u8>) -> u64
    recommends
        b.len() == 8,
{
    (b[0] as int + b[1] as int * 0x100 + b[2] as int * 0x1_0000 + b[3] as int * 0x100_0000 + b[4] as int
        * 0x1_0000_0000 + b[5] as int * 0x100_0000_0000 + b[6] as int * 0x1_0000_0000_0000 + b[7] as int
        * 0x100_0000_0000_0000) as u64
}

/// `bytes::Buf::get_u64_le` on a byte slice: the number that the first eight
/// bytes spell, the lowest byte first. It panics on fewer than eight bytes.
#[verifier::external_body]
fn read_u64_le(bytes: &[u8]) -> (r: u64)
    requires
        bytes@.len() >= 8,
    ensures
        r == le_u64(bytes@.subrange(0, 8)),
{
    let mut buf = bytes;
    buf.get_u64_le()
}

/// The trailer of the encoded block `data`: its last nine bytes. A block of
/// fewer bytes has none.
pub fn block_trailer(data: &[u8]) -> (r: Option<BlockTrailer>)
    ensures
        data@.len() < TRAILER_LEN ==> r is None,
        data@.len() >= TRAILER_LEN ==> r == Some(
            BlockTrailer {
                compression: data@[data@.len() - 9],
                checksum: le_u64(data@.subrange(data@.len() - 8, data@.len() as int)),
            },
        ),
{
    let len = data.len();
    if len < TRAILER_LEN {
        return None;
    }
    let tail = slice_subrange(data, len - 8, len);
    let checksum = read_u64_le(tail);
    Some(BlockTrailer { compression: data[len - 9], checksum })
}

} // verus!
