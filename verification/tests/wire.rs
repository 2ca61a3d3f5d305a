use rw_rs::bsf::geo::RwV3d;
use rw_rs::bsf::tex::RwRGBA;
use rw_rs::wire::{
    read_le_u16, read_le_u32, read_records, read_u8, strip_tag, tail_from, take_at, utf8_text,
    ParseError,
};

const BYTES: [u8; 8] = [0x01, 0x02, 0x03, 0x04, 0x05, 0x06, 0x07, 0x08];

#[test]
fn bytes_are_read_at_their_offset() {
    assert_eq!(read_u8(&BYTES, 0), Ok(0x01));
    assert_eq!(read_u8(&BYTES, 7), Ok(0x08));
    assert_eq!(read_u8(&BYTES, 8), Err(ParseError::TruncatedInput));
    assert_eq!(read_u8(&BYTES, usize::MAX), Err(ParseError::TruncatedInput));
    assert_eq!(read_u8(&[], 0), Err(ParseError::TruncatedInput));
}

#[test]
fn words_are_little_endian() {
    assert_eq!(read_le_u16(&BYTES, 0), Ok(0x0201));
    assert_eq!(read_le_u16(&BYTES, 6), Ok(0x0807));
    assert_eq!(read_le_u16(&BYTES, 7), Err(ParseError::TruncatedInput));
    assert_eq!(read_le_u32(&BYTES, 0), Ok(0x0403_0201));
    assert_eq!(read_le_u32(&BYTES, 1), Ok(0x0504_0302));
    assert_eq!(read_le_u32(&BYTES, 4), Ok(0x0807_0605));
    assert_eq!(read_le_u32(&BYTES, 5), Err(ParseError::TruncatedInput));
    assert_eq!(read_le_u32(&[0xFF, 0xFF, 0xFF, 0xFF], 0), Ok(0xFFFF_FFFF));
    assert_eq!(read_le_u16(&[0xFF, 0xFF], 0), Ok(0xFFFF));
    assert_eq!(read_le_u32(&BYTES, usize::MAX - 1), Err(ParseError::TruncatedInput));
}

#[test]
fn taking_bytes() {
    assert_eq!(take_at(&BYTES, 2, 3), Some(&BYTES[2..5]));
    assert_eq!(take_at(&BYTES, 0, 8), Some(&BYTES[..]));
    assert_eq!(take_at(&BYTES, 8, 0), Some(&BYTES[8..]));
    assert_eq!(take_at(&BYTES, 6, 3), None);
    assert_eq!(take_at(&BYTES, 9, 0), None);
    assert_eq!(take_at(&BYTES, 1, usize::MAX), None);
    assert_eq!(tail_from(&BYTES, 5), &BYTES[5..]);
    assert_eq!(tail_from(&BYTES, 8), &[] as &[u8]);
    assert_eq!(tail_from(&BYTES, 100), &[] as &[u8]);
}

#[test]
fn stripping_a_tag() {
    assert_eq!(strip_tag(b"COLLrest", b"COLL"), Some(&b"rest"[..]));
    assert_eq!(strip_tag(b"COLL", b"COLL"), Some(&b""[..]));
    assert_eq!(strip_tag(b"COL", b"COLL"), None);
    assert_eq!(strip_tag(b"COLX....", b"COLL"), None);
    assert_eq!(strip_tag(b"xCOLL", b"COLL"), None);
    assert_eq!(strip_tag(b"abc", b""), Some(&b"abc"[..]));
}

#[test]
fn counted_records() {
    let colors: Vec<RwRGBA> = read_records(&BYTES, 0, 2).unwrap();
    assert_eq!(colors, vec![RwRGBA { r: 1, g: 2, b: 3, a: 4 }, RwRGBA { r: 5, g: 6, b: 7, a: 8 }]);
    let colors: Vec<RwRGBA> = read_records(&BYTES, 4, 1).unwrap();
    assert_eq!(colors, vec![RwRGBA { r: 5, g: 6, b: 7, a: 8 }]);
    let none: Vec<RwRGBA> = read_records(&BYTES, 8, 0).unwrap();
    assert!(none.is_empty());
    assert_eq!(read_records::<RwRGBA>(&BYTES, 0, 3).err(), Some(ParseError::TruncatedInput));
    assert_eq!(read_records::<RwRGBA>(&BYTES, 5, 1).err(), Some(ParseError::TruncatedInput));
    assert_eq!(read_records::<RwRGBA>(&BYTES, 9, 0).err(), Some(ParseError::TruncatedInput));
    assert_eq!(
        read_records::<RwV3d>(&BYTES, 0, 0xFFFF_FFFF).err(),
        Some(ParseError::TruncatedInput)
    );
}

#[test]
fn text_must_be_utf8() {
    assert_eq!(utf8_text(b"plain"), Some("plain"));
    assert_eq!(utf8_text("\u{20ac}".as_bytes()), Some("\u{20ac}"));
    assert_eq!(utf8_text(&[]), Some(""));
    assert_eq!(utf8_text(&[0xC0, 0x80]), None);
    assert_eq!(utf8_text(&[0xED, 0xA0, 0x80]), None);
    assert_eq!(utf8_text(&[0xE2, 0x82]), None);
}
