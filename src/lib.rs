//! Packing of four-character ASCII tags (FourCC codes such as `avc1`) into
//! 32-bit integers, and a check for whether a byte sequence is such a tag.
pub mod model;
pub mod codec;
pub mod lemmas;

pub use codec::{fourcc, fourcc_be, fourcc_le, is_fourcc, pack, ByteOrder, FourccError};
