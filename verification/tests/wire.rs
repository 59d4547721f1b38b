use mp4_parser::data_structures::{CString, Matrix, PascalString};
use mp4_parser::error::ParseError;
use mp4_parser::reader::Reader;
use mp4_parser::{Mp4, Parse};

fn be32(v: u32) -> [u8; 4] {
    v.to_be_bytes()
}

#[test]
fn reads_are_big_endian() {
    let mut r = Reader::new(vec![0x01, 0x02, 0x03, 0x04, 0x05, 0x06, 0x07, 0x08]);
    assert_eq!(r.read_u16().unwrap(), 0x0102);
    assert_eq!(r.read_u32().unwrap(), 0x03040506);
    assert_eq!(r.position(), 6);
    assert_eq!(r.read_u8().unwrap(), 0x07);
    assert_eq!(r.read_u8().unwrap(), 0x08);
    assert_eq!(r.read_u8(), Err(ParseError::Truncated));
}

#[test]
fn read_u64_and_signed() {
    let mut r = Reader::new(vec![0, 0, 0, 0, 0, 0, 0x01, 0x02]);
    assert_eq!(r.read_u64().unwrap(), 0x0102);
    let mut r = Reader::new(vec![0xFF, 0xFF, 0xFF, 0xFE]);
    assert_eq!(r.read_i32().unwrap(), -2);
    let mut r = Reader::new(vec![0x7F, 0xFF, 0xFF, 0xFF]);
    assert_eq!(r.read_i32().unwrap(), i32::MAX);
    let mut r = Reader::new(vec![0x80, 0x00, 0x00, 0x00]);
    assert_eq!(r.read_i32().unwrap(), i32::MIN);
    let mut r = Reader::new(vec![0xFF, 0x85]);
    assert_eq!(r.read_i16().unwrap(), -123);
}

#[test]
fn read_bytes_and_seeking() {
    let mut r = Reader::new(vec![10, 11, 12, 13, 14]);
    assert_eq!(r.read_bytes_dyn(2).unwrap(), vec![10, 11]);
    assert_eq!(r.read_bytes_const(2).unwrap(), vec![12, 13]);
    r.go_backwards(3).unwrap();
    assert_eq!(r.position(), 1);
    r.skip(2).unwrap();
    assert_eq!(r.position(), 3);
    assert_eq!(r.skip(5), Err(ParseError::Truncated));
    r.seek_absolute(0).unwrap();
    assert_eq!(r.read_u8().unwrap(), 10);
    assert_eq!(r.read_bytes_dyn(0).unwrap(), Vec::<u8>::new());
}

#[test]
fn read_until_includes_delimiter() {
    let mut r = Reader::new(vec![b'h', b'i', 0, b'x']);
    assert_eq!(r.read_until(0).unwrap(), vec![b'h', b'i', 0]);
    assert_eq!(r.position(), 3);
    let mut r = Reader::new(vec![b'h', b'i']);
    assert_eq!(r.read_until(0), Err(ParseError::Truncated));
    assert_eq!(r.position(), 0);
}

#[test]
fn atom_len_rejects_extended_sizes() {
    // Length 0 means "extends to end of file", length 1 signals a 64-bit
    // extended size; both are reported, never misread.
    let mut mp4 = Mp4::new(vec![0, 0, 0, 0, b'f', b't', b'y', b'p']);
    assert_eq!(
        mp4.read_atom_len(),
        Err(ParseError::UnsupportedExtendedSize)
    );
    assert_eq!(mp4.position(), 0);
    let mut mp4 = Mp4::new(vec![0, 0, 0, 1, b'f', b't', b'y', b'p']);
    assert_eq!(
        mp4.read_atom_len(),
        Err(ParseError::UnsupportedExtendedSize)
    );
    let mut mp4 = Mp4::new(vec![0, 0, 0, 16, b'f', b't', b'y', b'p']);
    assert_eq!(mp4.read_atom_len().unwrap(), 16);
}

#[test]
fn peek_header_does_not_consume() {
    let mut bytes = Vec::new();
    bytes.extend_from_slice(&be32(8));
    bytes.extend_from_slice(b"free");
    let mut mp4 = Mp4::new(bytes);
    let h = mp4.peek_header().unwrap();
    assert_eq!(h.0, u32::from_be_bytes(*b"free"));
    assert_eq!(mp4.position(), 0);
    let h2 = mp4.peek_header().unwrap();
    assert_eq!(h, h2);
}

#[test]
fn skip_chunk_trusts_declared_length() {
    let mut bytes = Vec::new();
    bytes.extend_from_slice(&be32(12));
    bytes.extend_from_slice(b"free");
    bytes.extend_from_slice(&[9, 9, 9, 9]);
    bytes.extend_from_slice(&be32(8));
    bytes.extend_from_slice(b"skip");
    let mut mp4 = Mp4::new(bytes);
    assert_eq!(mp4.skip_chunk().unwrap(), 12);
    assert_eq!(mp4.position(), 12);
    assert_eq!(mp4.skip_chunk().unwrap(), 20);
}

#[test]
fn matrix_reads_nine_fields() {
    let mut bytes = Vec::new();
    for i in 1..=9u32 {
        bytes.extend_from_slice(&be32(i));
    }
    let mut mp4 = Mp4::new(bytes);
    let m = mp4.read_matrix().unwrap();
    assert_eq!(m.a, 1);
    assert_eq!(m.b, 2);
    assert_eq!(m.u, 3);
    assert_eq!(m.c, 4);
    assert_eq!(m.d, 5);
    assert_eq!(m.v, 6);
    assert_eq!(m.x, 7);
    assert_eq!(m.y, 8);
    assert_eq!(m.w, 9);
    assert_eq!(mp4.position(), 36);
    let mut short = Mp4::new(vec![0; 35]);
    assert_eq!(short.read_matrix(), Err(ParseError::Truncated));
    assert_eq!(short.position(), 0);
}

#[test]
fn matrix_via_parse_trait() {
    let mut bytes = Vec::new();
    for i in 1..=9u32 {
        bytes.extend_from_slice(&be32(i));
    }
    let mut mp4 = Mp4::new(bytes);
    let m = <Matrix as Parse>::parse(&mut mp4).unwrap();
    assert_eq!(m.w, 9);
}

#[test]
fn c_string_parses_to_terminator() {
    let mut mp4 = Mp4::new(vec![b'o', b'k', 0, b'z']);
    let s = <CString as Parse>::parse(&mut mp4).unwrap();
    assert_eq!(s, CString(vec![b'o', b'k', 0]));
    assert_eq!(mp4.position(), 3);
}

#[test]
fn c_string_requires_terminator_and_utf8() {
    let mut mp4 = Mp4::new(vec![b'n', b'o']);
    assert_eq!(
        <CString as Parse>::parse(&mut mp4),
        Err(ParseError::Truncated)
    );
    // 0xFF can never appear in UTF-8.
    let mut mp4 = Mp4::new(vec![0xFF, 0]);
    assert_eq!(
        <CString as Parse>::parse(&mut mp4),
        Err(ParseError::InvalidEncoding)
    );
}

#[test]
fn pascal_string_parses_length_prefix() {
    let mut bytes = Vec::new();
    bytes.extend_from_slice(&be32(4));
    bytes.extend_from_slice(&[b'h', 0xC3, 0xA9, b'l']);
    let mut mp4 = Mp4::new(bytes);
    let s = <PascalString as Parse>::parse(&mut mp4).unwrap();
    assert_eq!(s, PascalString(vec![b'h', 0xC3, 0xA9, b'l']));
    assert_eq!(mp4.position(), 8);
    let mut bytes = Vec::new();
    bytes.extend_from_slice(&be32(4));
    bytes.extend_from_slice(&[0xC3, 0xA9, 0xC3]); // one byte short
    let mut mp4 = Mp4::new(bytes);
    assert_eq!(
        <PascalString as Parse>::parse(&mut mp4),
        Err(ParseError::Truncated)
    );
    let mut bytes = Vec::new();
    bytes.extend_from_slice(&be32(2));
    bytes.extend_from_slice(&[0xC3, 0x28]); // bad continuation byte
    let mut mp4 = Mp4::new(bytes);
    assert_eq!(
        <PascalString as Parse>::parse(&mut mp4),
        Err(ParseError::InvalidEncoding)
    );
}
