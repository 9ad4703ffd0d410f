//! The executable packing functions and the tag check.
use vstd::prelude::*;
use vstd::string::StringSliceAdditionalSpecFns;
use vstd::endian::{endianness, Endian};
use crate::model::{
    byte_reverse, is_ascii_byte, is_fourcc_bytes, pack_be_spec, pack_le_spec, pack_native_spec,
};

verus! {

/// One step of the packing loop, which takes the tag's bytes from the last to
/// the first: the little-endian form moves the word down a byte and puts the
/// new byte on top, the big-endian form moves it up a byte and puts the new
/// byte at the bottom.
spec fn pack_step(acc: u32, b: u8, little: bool) -> u32 {
    if little {
        (acc >> 8) | ((b as u32) << 24)
    } else {
        (acc << 8) | (b as u32)
    }
}

/// The word the loop holds once it has taken the bytes `s[i..4]`.
spec fn packed_suffix(s: Seq<u8>, i: int, little: bool) -> u32
    decreases 4 - i,
{
    if i >= 4 {
        0
    } else {
        pack_step(packed_suffix(s, i + 1, little), s[i], little)
    }
}

proof fn lemma_packed_suffix_whole(s: Seq<u8>, little: bool)
    requires
        s.len() == 4,
    ensures
        packed_suffix(s, 0, little) == if little {
            pack_le_spec(s)
        } else {
            pack_be_spec(s)
        },
{
    let (b0, b1, b2, b3) = (s[0], s[1], s[2], s[3]);
    assert(packed_suffix(s, 4, little) == 0);
    assert(packed_suffix(s, 3, little) == pack_step(0, b3, little));
    assert(packed_suffix(s, 2, little) == pack_step(packed_suffix(s, 3, little), b2, little));
    assert(packed_suffix(s, 1, little) == pack_step(packed_suffix(s, 2, little), b1, little));
    assert(packed_suffix(s, 0, little) == pack_step(
        pack_step(pack_step(pack_step(0, b3, little), b2, little), b1, little),
        b0,
        little,
    ));
    assert(pack_step(pack_step(pack_step(pack_step(0, b3, true), b2, true), b1, true), b0, true)
        == ((b0 as u32) << 24) | ((b1 as u32) << 16) | ((b2 as u32) << 8) | (b3 as u32))
        by (bit_vector);
    assert(pack_step(
        pack_step(pack_step(pack_step(0, b3, false), b2, false), b1, false),
        b0,
        false,
    ) == ((b3 as u32) << 24) | ((b2 as u32) << 16) | ((b1 as u32) << 8) | (b0 as u32))
        by (bit_vector);
}

/// Packs a tag into a word, in little-endian order when `IS_LITTLE` holds and
/// in big-endian order otherwise.
fn fourcc_impl<const IS_LITTLE: bool>(four: &str) -> (r: u32)
    requires
        is_fourcc_bytes(four.spec_bytes()),
    ensures
        r == if IS_LITTLE {
            pack_le_spec(four.spec_bytes())
        } else {
            pack_be_spec(four.spec_bytes())
        },
{
    let bytes = four.as_bytes();
    let mut result: u32 = 0;
    let mut i: usize = 4;
    while i > 0
        invariant
            bytes@ == four.spec_bytes(),
            bytes@.len() == 4,
            i <= 4,
            result == packed_suffix(bytes@, i as int, IS_LITTLE),
        decreases i,
    {
        i = i - 1;
        let current = bytes[i] as u32;
        result = if IS_LITTLE {
            (result >> 8) | (current << 24)
        } else {
            (result << 8) | current
        };
    }
    proof {
        lemma_packed_suffix_whole(bytes@, IS_LITTLE);
    }
    result
}

/// Whether `four` is a valid tag: exactly four bytes, all of them ASCII.
/// Total: any slice is accepted.
pub fn is_fourcc(four: &[u8]) -> (r: bool)
    ensures
        r == is_fourcc_bytes(four@),
{
    if four.len() != 4 {
        return false;
    }
    let mut i: usize = 0;
    while i < 4
        invariant
            four@.len() == 4,
            i <= 4,
            forall|j: int| 0 <= j < i ==> is_ascii_byte(#[trigger] four@[j]),
        decreases 4 - i,
    {
        if four[i] > 0x7f {
            return false;
        }
        i = i + 1;
    }
    true
}

/// Packs a tag in the byte order of the target the library runs on: the
/// little-endian code on a little-endian target, the big-endian code on a
/// big-endian one.
pub fn fourcc(four: &str) -> (r: u32)
    requires
        is_fourcc_bytes(four.spec_bytes()),
    ensures
        r == pack_native_spec(four.spec_bytes()),
{
    let le = fourcc_le(four);
    let r = native_from_le(le);
    proof {
        crate::lemmas::lemma_le_is_reversed_be(four.spec_bytes());
        crate::lemmas::lemma_byte_reverse_involutive(pack_be_spec(four.spec_bytes()));
    }
    r
}

/// Packs a tag in little-endian order: the first byte of the tag becomes the
/// most significant byte of the word.
pub fn fourcc_le(four: &str) -> (r: u32)
    requires
        is_fourcc_bytes(four.spec_bytes()),
    ensures
        r == pack_le_spec(four.spec_bytes()),
{
    fourcc_impl::<true>(four)
}

/// Packs a tag in big-endian order: the first byte of the tag becomes the
/// least significant byte of the word.
pub fn fourcc_be(four: &str) -> (r: u32)
    requires
        is_fourcc_bytes(four.spec_bytes()),
    ensures
        r == pack_be_spec(four.spec_bytes()),
{
    fourcc_impl::<false>(four)
}

/// Relies on `u32::from_le`: a no-op on a little-endian target, a swap of the
/// four bytes on a big-endian one.
#[verifier::external_body]
fn native_from_le(x: u32) -> (r: u32)
    ensures
        endianness() == Endian::Little ==> r == x,
        endianness() == Endian::Big ==> r == byte_reverse(x),
{
    u32::from_le(x)
}

/// The byte order in which [`pack`] packs a tag.
#[derive(Clone, Copy, Debug, PartialEq, Eq)]
pub enum ByteOrder {
    /// The byte order of the target the library runs on.
    Native,
    /// The first byte of the tag is the most significant byte of the word.
    Little,
    /// The first byte of the tag is the least significant byte of the word.
    Big,
}

/// Why a string is not a valid tag.
#[derive(Clone, Copy, Debug, PartialEq, Eq)]
pub enum FourccError {
    /// The string is not exactly four bytes long.
    InvalidLength,
    /// The string is four bytes long, but one of them is not ASCII.
    InvalidCharacter,
}

/// The code of a valid tag in the given byte order.
pub open spec fn pack_order_spec(s: Seq<u8>, order: ByteOrder) -> u32 {
    match order {
        ByteOrder::Native => pack_native_spec(s),
        ByteOrder::Little => pack_le_spec(s),
        ByteOrder::Big => pack_be_spec(s),
    }
}

/// Packs a string in the given byte order after checking that it is a tag:
/// a length other than four bytes is an `InvalidLength` error; four bytes of
/// which one is not ASCII are an `InvalidCharacter` error.
pub fn pack(four: &str, order: ByteOrder) -> (r: Result<u32, FourccError>)
    ensures
        four.spec_bytes().len() != 4 ==> r == Err::<u32, FourccError>(FourccError::InvalidLength),
        four.spec_bytes().len() == 4 && !is_fourcc_bytes(four.spec_bytes()) ==> r == Err::<
            u32,
            FourccError,
        >(FourccError::InvalidCharacter),
        is_fourcc_bytes(four.spec_bytes()) ==> r == Ok::<u32, FourccError>(
            pack_order_spec(four.spec_bytes(), order),
        ),
{
    let bytes = four.as_bytes();
    if bytes.len() != 4 {
        return Err(FourccError::InvalidLength);
    }
    if !is_fourcc(bytes) {
        return Err(FourccError::InvalidCharacter);
    }
    match order {
        ByteOrder::Native => Ok(fourcc(four)),
        ByteOrder::Little => Ok(fourcc_le(four)),
        ByteOrder::Big => Ok(fourcc_be(four)),
    }
}

} // verus!
