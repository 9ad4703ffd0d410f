//! Mathematical model of a FourCC tag and of its packed forms.
use vstd::prelude::*;
use vstd::endian::{endianness, Endian};

verus! {

/// A byte is an ASCII character when its high bit is clear.
pub open spec fn is_ascii_byte(b: u8) -> bool {
    b <= 0x7f
}

/// A valid tag: exactly four bytes, each of them ASCII.
pub open spec fn is_fourcc_bytes(s: Seq<u8>) -> bool {
    &&& s.len() == 4
    &&& forall|i: int| 0 <= i < 4 ==> is_ascii_byte(#[trigger] s[i])
}

/// Four bytes joined into one word, `a` as the most significant byte and `d`
/// as the least significant.
pub open spec fn join_msb_first(a: u8, b: u8, c: u8, d: u8) -> u32 {
    ((a as u32) << 24) | ((b as u32) << 16) | ((c as u32) << 8) | (d as u32)
}

/// The little-endian code of a tag: its first byte is the most significant
/// byte of the word, its last byte the least significant.
pub open spec fn pack_le_spec(s: Seq<u8>) -> u32
    recommends
        s.len() == 4,
{
    join_msb_first(s[0], s[1], s[2], s[3])
}

/// The big-endian code of a tag: its first byte is the least significant
/// byte of the word, its last byte the most significant.
pub open spec fn pack_be_spec(s: Seq<u8>) -> u32
    recommends
        s.len() == 4,
{
    join_msb_first(s[3], s[2], s[1], s[0])
}

/// The code of a tag in the byte order of the target the library runs on.
pub open spec fn pack_native_spec(s: Seq<u8>) -> u32
    recommends
        s.len() == 4,
{
    match endianness() {
        Endian::Little => pack_le_spec(s),
        Endian::Big => pack_be_spec(s),
    }
}

/// The word with its four bytes in reverse order.
pub open spec fn byte_reverse(x: u32) -> u32 {
    ((x & 0xff) << 24) | (((x >> 8) & 0xff) << 16) | (((x >> 16) & 0xff) << 8) | (x >> 24)
}

/// Byte `k` of a word, counting from the least significant byte (`k < 4`).
pub open spec fn byte_at(x: u32, k: u32) -> u8 {
    ((x >> ((8 * k) as u32)) & 0xff) as u8
}

} // verus!
