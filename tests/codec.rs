use fourcc::{fourcc, fourcc_be, fourcc_le, is_fourcc, pack, ByteOrder, FourccError};

fn target_is_little() -> bool {
    1u16.to_ne_bytes()[0] == 1
}

#[test]
fn le_works() {
    assert!(fourcc_le("avc1") == 0x61766331);
}

#[test]
fn be_works() {
    assert!(fourcc_be("avc1") == 0x31637661);
}

#[test]
fn is_works() {
    assert!(is_fourcc("avc1".as_bytes()))
}

#[test]
fn pack_rejects_three_bytes() {
    assert_eq!(pack("avc", ByteOrder::Native), Err(FourccError::InvalidLength));
    assert_eq!(pack("avc", ByteOrder::Little), Err(FourccError::InvalidLength));
    assert_eq!(pack("avc", ByteOrder::Big), Err(FourccError::InvalidLength));
}

#[test]
fn pack_rejects_non_ascii_bytes() {
    assert_eq!("神 ".len(), 4);
    assert_eq!(pack("神 ", ByteOrder::Native), Err(FourccError::InvalidCharacter));
    assert_eq!(pack("神 ", ByteOrder::Little), Err(FourccError::InvalidCharacter));
    assert_eq!(pack("神 ", ByteOrder::Big), Err(FourccError::InvalidCharacter));
}

#[test]
fn too_long_is_invalid_length() {
    assert_eq!(pack("toolong", ByteOrder::Big), Err(FourccError::InvalidLength));
    assert_eq!(pack("", ByteOrder::Little), Err(FourccError::InvalidLength));
}

#[test]
fn is_fourcc_rejects_wrong_lengths() {
    assert!(!is_fourcc("".as_bytes()));
    assert!(!is_fourcc("toolong".as_bytes()));
    assert!(!is_fourcc("avc".as_bytes()));
}

#[test]
fn is_fourcc_rejects_high_bytes() {
    assert!(!is_fourcc(&[0x61, 0x76, 0x63, 0x80]));
    assert!(!is_fourcc(&[0xff, 0x76, 0x63, 0x31]));
    assert!(!is_fourcc("神 ".as_bytes()));
    assert!(is_fourcc(&[0x00, 0x7f, 0x20, 0x41]));
}

#[test]
fn le_is_first_byte_on_top() {
    let s = "mp4a";
    let b = s.as_bytes();
    let expected = (b[0] as u32) << 24 | (b[1] as u32) << 16 | (b[2] as u32) << 8 | b[3] as u32;
    assert_eq!(fourcc_le(s), expected);
    assert_eq!(fourcc_le(s), u32::from_be_bytes([b[0], b[1], b[2], b[3]]));
}

#[test]
fn be_is_last_byte_on_top() {
    let s = "mp4a";
    let b = s.as_bytes();
    let expected = (b[3] as u32) << 24 | (b[2] as u32) << 16 | (b[1] as u32) << 8 | b[0] as u32;
    assert_eq!(fourcc_be(s), expected);
    assert_eq!(fourcc_be(s), u32::from_le_bytes([b[0], b[1], b[2], b[3]]));
}

#[test]
fn mirrored_tag_le_and_be_agree() {
    assert_eq!(fourcc_le("abba"), 0x61626261);
    assert_eq!(fourcc_be("abba"), 0x61626261);
}

#[test]
fn le_is_be_byte_reversed() {
    for s in ["avc1", "hvc1", "mp4a", "    ", "\0\u{7f}A~"] {
        assert_eq!(fourcc_le(s), fourcc_be(s).swap_bytes());
    }
}

#[test]
fn native_follows_target() {
    for s in ["avc1", "hvc1", "mp4a"] {
        if target_is_little() {
            assert_eq!(fourcc(s), fourcc_le(s));
        } else {
            assert_eq!(fourcc(s), fourcc_be(s));
        }
    }
}

#[test]
fn native_of_avc1() {
    let expected: u32 = if target_is_little() { 0x61766331 } else { 0x31637661 };
    assert_eq!(fourcc("avc1"), expected);
    assert_eq!(pack("avc1", ByteOrder::Native), Ok(expected));
}

#[test]
fn pack_valid_tags() {
    assert_eq!(pack("avc1", ByteOrder::Little), Ok(0x61766331));
    assert_eq!(pack("avc1", ByteOrder::Big), Ok(0x31637661));
    assert_eq!(pack("    ", ByteOrder::Big), Ok(0x20202020));
}

#[test]
fn packed_bytes_round_trip() {
    let s = "hvc1";
    assert_eq!(fourcc_be(s).to_le_bytes(), *b"hvc1");
    assert_eq!(fourcc_le(s).to_be_bytes(), *b"hvc1");
}
