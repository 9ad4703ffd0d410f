//! Facts about the packed forms of a tag.
use vstd::prelude::*;
use vstd::endian::{endianness, Endian};
use crate::model::{
    byte_at, byte_reverse, is_fourcc_bytes, join_msb_first, pack_be_spec, pack_le_spec,
    pack_native_spec,
};

verus! {

/// Reversing the bytes of a word twice gives the word back.
pub proof fn lemma_byte_reverse_involutive(x: u32)
    ensures
        byte_reverse(byte_reverse(x)) == x,
{
    assert(byte_reverse(byte_reverse(x)) == x) by (bit_vector);
}

/// The little-endian code of a tag is its big-endian code with the four bytes
/// of the word reversed.
pub proof fn lemma_le_is_reversed_be(s: Seq<u8>)
    requires
        is_fourcc_bytes(s),
    ensures
        pack_le_spec(s) == byte_reverse(pack_be_spec(s)),
{
    let (b0, b1, b2, b3) = (s[0], s[1], s[2], s[3]);
    assert(join_msb_first(b0, b1, b2, b3) == byte_reverse(join_msb_first(b3, b2, b1, b0)))
        by (bit_vector);
}

/// The native code of a tag is its little-endian code on a little-endian
/// target and its big-endian code on a big-endian target.
pub proof fn lemma_native_follows_target(s: Seq<u8>)
    requires
        is_fourcc_bytes(s),
    ensures
        endianness() == Endian::Little ==> pack_native_spec(s) == pack_le_spec(s),
        endianness() == Endian::Big ==> pack_native_spec(s) == pack_be_spec(s),
{
}

/// Each packed form keeps the tag's bytes: byte `k` of the big-endian code,
/// from the least significant end, is byte `k` of the tag, and byte `k` of the
/// little-endian code is byte `3 - k` of the tag. So unpacking a code in the
/// order that packed it gives the tag back.
pub proof fn lemma_pack_keeps_bytes(s: Seq<u8>)
    requires
        is_fourcc_bytes(s),
    ensures
        forall|k: int| 0 <= k < 4 ==> #[trigger] byte_at(pack_be_spec(s), k as u32) == s[k],
        forall|k: int| 0 <= k < 4 ==> #[trigger] byte_at(pack_le_spec(s), k as u32) == s[3 - k],
{
    let (b0, b1, b2, b3) = (s[0], s[1], s[2], s[3]);
    let be = join_msb_first(b3, b2, b1, b0);
    let le = join_msb_first(b0, b1, b2, b3);
    assert(byte_at(be, 0) == b0 && byte_at(be, 1) == b1 && byte_at(be, 2) == b2 && byte_at(be, 3)
        == b3) by (bit_vector)
        requires
            be == join_msb_first(b3, b2, b1, b0),
    ;
    assert(byte_at(le, 0) == b3 && byte_at(le, 1) == b2 && byte_at(le, 2) == b1 && byte_at(le, 3)
        == b0) by (bit_vector)
        requires
            le == join_msb_first(b0, b1, b2, b3),
    ;
}

/// For a tag whose bytes read the same backwards (`s[0] == s[3]` and
/// `s[1] == s[2]`), the big-endian code holds `s[0]`, `s[1]`, `s[2]`, `s[3]`
/// from the most significant byte down.
pub proof fn lemma_pack_be_of_mirrored_tag(s: Seq<u8>)
    requires
        is_fourcc_bytes(s),
        s[0] == s[3],
        s[1] == s[2],
    ensures
        pack_be_spec(s) == ((s[0] as u32) << 24) | ((s[1] as u32) << 16) | ((s[2] as u32) << 8) | (
        s[3] as u32),
{
}

/// For a tag whose bytes read the same backwards (`s[0] == s[3]` and
/// `s[1] == s[2]`), the little-endian code holds `s[0]`, `s[1]`, `s[2]`, `s[3]`
/// from the least significant byte up.
pub proof fn lemma_pack_le_of_mirrored_tag(s: Seq<u8>)
    requires
        is_fourcc_bytes(s),
        s[0] == s[3],
        s[1] == s[2],
    ensures
        pack_le_spec(s) == (s[0] as u32) | ((s[1] as u32) << 8) | ((s[2] as u32) << 16) | ((
        s[3] as u32) << 24),
{
    let (b0, b1, b2, b3) = (s[0], s[1], s[2], s[3]);
    assert(join_msb_first(b0, b1, b2, b3) == (b3 as u32) | ((b2 as u32) << 8) | ((b1 as u32) << 16)
        | ((b0 as u32) << 24)) by (bit_vector);
}

} // verus!
