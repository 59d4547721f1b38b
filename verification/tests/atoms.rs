use mp4_parser::atom::media_data_type::{
    AvcC, SampleDescriptionTable, SampleVideoDescriptionTable, VideoSampleExtension,
};
use mp4_parser::atom::sample_table::{Stts, TimeToSampleEntry};
use mp4_parser::atom::{
    Alis, DataRef, Dref, Ftyp, Hdlr, InternalElement, Mdat, Mdhd, Moov, Url, Vmhd,
};
use mp4_parser::error::ParseError;
use mp4_parser::reference::Reference;
use mp4_parser::{Mp4, Parse};

fn be32(v: u32) -> [u8; 4] {
    v.to_be_bytes()
}

fn be16(v: u16) -> [u8; 2] {
    v.to_be_bytes()
}

/// An 8-byte frame: declared length and tag.
fn frame(len: u32, tag: &[u8; 4]) -> Vec<u8> {
    let mut v = Vec::new();
    v.extend_from_slice(&be32(len));
    v.extend_from_slice(tag);
    v
}

fn mdhd_bytes() -> Vec<u8> {
    let mut v = frame(32, b"mdhd");
    v.push(1); // version
    v.extend_from_slice(&[0, 0, 7]); // flags
    v.extend_from_slice(&be32(100)); // creation_time
    v.extend_from_slice(&be32(200)); // modification_time
    v.extend_from_slice(&be32(600)); // time_scale
    v.extend_from_slice(&be32(1234)); // duration
    v.extend_from_slice(&be16(0x55C4)); // language
    v.extend_from_slice(&be16(3)); // quality
    v
}

#[test]
fn mdhd_fields_parse_exactly() {
    let mut mp4 = Mp4::new(mdhd_bytes());
    let m = <Mdhd as Parse>::parse(&mut mp4).unwrap();
    assert_eq!(m.version, 1);
    assert_eq!(m.flags, vec![0, 0, 7]);
    assert_eq!(m.creation_time, 100);
    assert_eq!(m.modification_time, 200);
    assert_eq!(m.time_scale, 600);
    assert_eq!(m.duration, 1234);
    assert_eq!(m.language, 0x55C4);
    assert_eq!(m.quality, 3);
    // Framing round-trip: the parse consumed exactly the declared length.
    assert_eq!(mp4.position(), 32);
}

#[test]
fn leaf_header_mismatch_is_reported() {
    let mut bytes = mdhd_bytes();
    bytes[4..8].copy_from_slice(b"xxxx");
    let mut mp4 = Mp4::new(bytes);
    assert_eq!(
        <Mdhd as Parse>::parse(&mut mp4),
        Err(ParseError::HeaderMismatch)
    );
}

#[test]
fn leaf_wrong_declared_length_is_a_framing_violation() {
    let mut bytes = mdhd_bytes();
    bytes[0..4].copy_from_slice(&be32(31));
    let mut mp4 = Mp4::new(bytes);
    assert_eq!(
        <Mdhd as Parse>::parse(&mut mp4),
        Err(ParseError::FramingViolation)
    );
}

#[test]
fn leaf_truncated_source_is_reported() {
    let mut bytes = mdhd_bytes();
    bytes.truncate(20);
    let mut mp4 = Mp4::new(bytes);
    assert_eq!(<Mdhd as Parse>::parse(&mut mp4), Err(ParseError::Truncated));
}

// A leaf atom declared length 20 with 8 header bytes and 4 fixed bytes must
// consume exactly 8 bytes into its trailing fill field.
#[test]
fn leaf_trailing_fill_consumes_to_declared_end() {
    let mut bytes = frame(20, b"url ");
    bytes.push(0); // version
    bytes.extend_from_slice(&[0, 0, 0]); // flags
    bytes.extend_from_slice(&[1, 2, 3, 4, 5, 6, 7, 8]);
    bytes.extend_from_slice(&[0xEE; 4]); // bytes past the atom, untouched
    let mut mp4 = Mp4::new(bytes);
    let url = <Url as Parse>::parse(&mut mp4).unwrap();
    assert_eq!(url.data, vec![1, 2, 3, 4, 5, 6, 7, 8]);
    assert_eq!(mp4.position(), 20);
}

// A declared length too short for the fixed fields yields Truncated or
// FramingViolation, never a partial silent read.
#[test]
fn leaf_declared_length_shorter_than_fixed_fields_fails() {
    let mut bytes = frame(10, b"url ");
    bytes.push(0);
    bytes.extend_from_slice(&[0, 0, 0]);
    bytes.extend_from_slice(&[0xAA; 8]);
    let mut mp4 = Mp4::new(bytes);
    assert_eq!(
        <Url as Parse>::parse(&mut mp4),
        Err(ParseError::FramingViolation)
    );
    let mut bytes = frame(40, b"url ");
    bytes.push(0);
    bytes.extend_from_slice(&[0, 0, 0]);
    let mut mp4 = Mp4::new(bytes);
    assert_eq!(<Url as Parse>::parse(&mut mp4), Err(ParseError::Truncated));
}

#[test]
fn ftyp_keeps_compatible_brands() {
    let mut bytes = frame(20, b"ftyp");
    bytes.extend_from_slice(b"qt  ");
    bytes.extend_from_slice(&be32(0x2005_0300));
    bytes.extend_from_slice(b"qt  ");
    let mut mp4 = Mp4::new(bytes);
    let f = <Ftyp as Parse>::parse(&mut mp4).unwrap();
    assert_eq!(f.major_brand, u32::from_be_bytes(*b"qt  "));
    assert_eq!(f.major_brand_version, 0x2005_0300);
    assert_eq!(f.compatible_brands, b"qt  ".to_vec());
}

#[test]
fn mdat_keeps_raw_bytes() {
    let mut bytes = frame(13, b"mdat");
    bytes.extend_from_slice(&[1, 2, 3, 4, 5]);
    let mut mp4 = Mp4::new(bytes);
    let m = <Mdat as Parse>::parse(&mut mp4).unwrap();
    assert_eq!(m.bytes, vec![1, 2, 3, 4, 5]);
}

fn hdlr_bytes(name: &[u8]) -> Vec<u8> {
    let mut v = frame(32 + name.len() as u32, b"hdlr");
    v.push(0);
    v.extend_from_slice(&[0, 0, 0]);
    v.extend_from_slice(b"mhlr");
    v.extend_from_slice(b"vide");
    v.extend_from_slice(&be32(0));
    v.extend_from_slice(&be32(0));
    v.extend_from_slice(&be32(0));
    v.extend_from_slice(name);
    v
}

#[test]
fn hdlr_component_name_fills_to_end() {
    let mut mp4 = Mp4::new(hdlr_bytes(b"video handler"));
    let h = <Hdlr as Parse>::parse(&mut mp4).unwrap();
    assert_eq!(h.component_subtype, u32::from_be_bytes(*b"vide"));
    assert_eq!(h.component_name, b"video handler".to_vec());
}

#[test]
fn hdlr_name_must_be_utf8() {
    let mut mp4 = Mp4::new(hdlr_bytes(&[0xC3, 0x28]));
    assert_eq!(
        <Hdlr as Parse>::parse(&mut mp4),
        Err(ParseError::InvalidEncoding)
    );
}

#[test]
fn dref_parses_tagged_entries() {
    let mut inner = frame(13, b"url ");
    inner.push(0);
    inner.extend_from_slice(&[0, 0, 0]);
    inner.push(b'x');
    let mut bytes = frame(16 + 13, b"dref");
    bytes.push(0);
    bytes.extend_from_slice(&[0, 0, 0]);
    bytes.extend_from_slice(&be32(1));
    bytes.extend_from_slice(&inner);
    let mut mp4 = Mp4::new(bytes.clone());
    let d = <Dref as Parse>::parse(&mut mp4).unwrap();
    assert_eq!(d.number_of_entries, 1);
    assert_eq!(d.data.len(), 1);
    match d.data[0] {
        DataRef::Url(r) => {
            assert_eq!(r.offset, 16);
            assert_eq!(r.len, 13);
            let mut second_cursor = Mp4::new(bytes);
            let url = r.parse(&mut second_cursor).unwrap();
            assert_eq!(url.data, vec![b'x']);
        }
        _ => panic!("expected a url entry"),
    }
}

#[test]
fn dref_unknown_entry_tag_is_reported_with_its_bytes() {
    let mut inner = frame(12, b"wxyz");
    inner.extend_from_slice(&[0, 0, 0, 0]);
    let mut bytes = frame(16 + 12, b"dref");
    bytes.push(0);
    bytes.extend_from_slice(&[0, 0, 0]);
    bytes.extend_from_slice(&be32(1));
    bytes.extend_from_slice(&inner);
    let mut mp4 = Mp4::new(bytes);
    assert_eq!(
        <Dref as Parse>::parse(&mut mp4),
        Err(ParseError::UnknownVariant(u32::from_be_bytes(*b"wxyz")))
    );
}

/// A moov with one mvhd-tagged child (12 bytes) and two trak-tagged children.
fn moov_bytes() -> Vec<u8> {
    let mut body = Vec::new();
    let mut mvhd = frame(12, b"mvhd");
    mvhd.extend_from_slice(&[0; 4]);
    body.extend_from_slice(&mvhd);
    body.extend_from_slice(&frame(8, b"trak"));
    body.extend_from_slice(&frame(8, b"trak"));
    let mut v = frame(8 + body.len() as u32, b"moov");
    v.extend_from_slice(&body);
    v
}

// Framing round-trip for a container: the children tile the body, so the sum
// of child frame lengths plus the container's 8 header bytes equals its
// declared length.
#[test]
fn container_children_tile_declared_length() {
    let bytes = moov_bytes();
    let declared = bytes.len() as u32;
    let mut mp4 = Mp4::new(bytes);
    let moov = <Moov as Parse>::parse(&mut mp4).unwrap();
    assert_eq!(mp4.position() as u32, declared);
    assert_eq!(moov.unparsed_atoms.len(), 3);
    let total: usize = moov.unparsed_atoms.iter().map(|a| a.len).sum();
    assert_eq!(total + 8, declared as usize);
    assert_eq!(moov.unparsed_atoms[0].offset, 8);
    assert_eq!(moov.unparsed_atoms[1].offset, 20);
    assert_eq!(moov.unparsed_atoms[2].offset, 28);
}

#[test]
fn container_child_overrunning_parent_fails() {
    let mut bytes = frame(16, b"moov");
    bytes.extend_from_slice(&frame(12, b"free")); // child claims 12, parent holds 8
    bytes.extend_from_slice(&[0; 8]); // bytes beyond the container
    let mut mp4 = Mp4::new(bytes);
    assert_eq!(
        <Moov as Parse>::parse(&mut mp4),
        Err(ParseError::TruncatedSequence)
    );
}

#[test]
fn container_child_with_extended_size_fails() {
    let mut bytes = frame(16, b"moov");
    bytes.extend_from_slice(&frame(0, b"free"));
    let mut mp4 = Mp4::new(bytes);
    assert_eq!(
        <Moov as Parse>::parse(&mut mp4),
        Err(ParseError::UnsupportedExtendedSize)
    );
}

// Search memoization: resolving a repeated role claims all matching children
// out of the unresolved list; a second resolution returns the cache and scans
// nothing.
#[test]
fn role_resolution_claims_children_once() {
    let mut mp4 = Mp4::new(moov_bytes());
    let mut moov = <Moov as Parse>::parse(&mut mp4).unwrap();
    assert_eq!(moov.unparsed_atoms.len(), 3);
    let traks = moov.trak();
    assert_eq!(traks.len(), 2);
    assert_eq!(moov.unparsed_atoms.len(), 1); // decreased by exactly the claimed count
    assert_eq!(traks[0].offset, 20);
    assert_eq!(traks[1].offset, 28);
    let again = moov.trak();
    assert_eq!(again.len(), 2);
    assert_eq!(moov.unparsed_atoms.len(), 1); // no further scanning
    assert_eq!(again[0].offset, 20);

    let header = moov.movie_header().unwrap();
    assert_eq!(header.offset, 8);
    assert_eq!(header.len, 12);
    assert_eq!(moov.unparsed_atoms.len(), 0);
    let header_again = moov.movie_header().unwrap();
    assert_eq!(header_again, header);
}

#[test]
fn required_role_missing_is_an_error() {
    let mut mp4 = Mp4::new(moov_bytes());
    let mut moov = <Moov as Parse>::parse(&mut mp4).unwrap();
    assert_eq!(moov.udta(), Err(ParseError::MissingRequiredChild));
}

#[test]
fn optional_role_absent_is_cached_as_none() {
    let mut mp4 = Mp4::new(moov_bytes());
    let mut moov = <Moov as Parse>::parse(&mut mp4).unwrap();
    assert_eq!(moov.clip(), None);
    assert_eq!(moov.clip, InternalElement::Searched(None));
    assert_eq!(moov.clip(), None);
}

// Reference purity: resolving the same reference twice, against two cursors
// over identical bytes, yields structurally equal values.
#[test]
fn reference_resolution_is_pure() {
    let bytes = mdhd_bytes();
    let reference: Reference<Mdhd> = Reference::new(0, 32);
    let mut c1 = Mp4::new(bytes.clone());
    let mut c2 = Mp4::new(bytes);
    let first = reference.parse(&mut c1).unwrap();
    let second = reference.parse(&mut c2).unwrap();
    assert_eq!(first, second);
    let third = reference.parse(&mut c1).unwrap();
    assert_eq!(first, third);
}

#[test]
fn vmhd_parses() {
    let mut bytes = frame(20, b"vmhd");
    bytes.push(0);
    bytes.extend_from_slice(&[0, 0, 1]);
    bytes.extend_from_slice(&be16(0x40));
    bytes.extend_from_slice(&[1, 2, 3, 4, 5, 6]);
    let mut mp4 = Mp4::new(bytes);
    let v = <Vmhd as Parse>::parse(&mut mp4).unwrap();
    assert_eq!(v.graphics_mode, 0x40);
    assert_eq!(v.op_color, vec![1, 2, 3, 4, 5, 6]);
}

fn avcc_bytes() -> Vec<u8> {
    let mut v = frame(8 + 6 + 5 + 1 + 4, b"avcC");
    v.push(1); // configuration version
    v.push(66); // profile indication
    v.push(0); // profile compatibility (no extension)
    v.push(30); // level indication
    v.push(0xFF); // reserved bits + length_size_minus_one (3)
    v.push(0xE1); // reserved bits + one sps
    v.extend_from_slice(&be16(3));
    v.extend_from_slice(&[0x67, 0x42, 0x00]);
    v.push(1); // one pps
    v.extend_from_slice(&be16(2));
    v.extend_from_slice(&[0x68, 0xCE]);
    v
}

#[test]
fn avcc_parses_parameter_sets() {
    let mut mp4 = Mp4::new(avcc_bytes());
    let a = <AvcC as Parse>::parse(&mut mp4).unwrap();
    assert_eq!(a.configuration_version, 1);
    assert_eq!(a.avc_profile_indication, 66);
    assert_eq!(a.length_size_minus_one, 3);
    assert_eq!(a.sequence_parameter_sets.len(), 1);
    assert_eq!(a.sequence_parameter_sets[0].len, 3);
    assert_eq!(a.sequence_parameter_sets[0].nal_unit, vec![0x67, 0x42, 0x00]);
    assert_eq!(a.picture_parameter_sets.len(), 1);
    assert_eq!(a.picture_parameter_sets[0].nal_unit, vec![0x68, 0xCE]);
    assert!(a.extension.is_none());
    assert_eq!(mp4.position(), avcc_bytes().len());
}

fn video_table_bytes() -> Vec<u8> {
    let ext = avcc_bytes();
    let mut v = Vec::new();
    v.extend_from_slice(&be32(86 + ext.len() as u32));
    v.extend_from_slice(b"avc1"); // data format
    v.extend_from_slice(&[0; 6]); // reserved
    v.extend_from_slice(&be16(1)); // data reference index
    v.extend_from_slice(&be16(0)); // version
    v.extend_from_slice(&be16(0)); // revision level
    v.extend_from_slice(&be32(0)); // vendor
    v.extend_from_slice(&be32(512)); // temporal quality
    v.extend_from_slice(&be32(512)); // spatial quality
    v.extend_from_slice(&be16(1920)); // width
    v.extend_from_slice(&be16(1080)); // height
    v.extend_from_slice(&be32(0x0048_0000)); // horizontal resolution
    v.extend_from_slice(&be32(0x0048_0000)); // vertical resolution
    v.extend_from_slice(&be32(0)); // data size
    v.extend_from_slice(&be16(1)); // frame count
    v.extend_from_slice(&[0; 32]); // compressor name
    v.extend_from_slice(&be16(24)); // depth
    v.extend_from_slice(&be16(0xFFFF)); // color table id (-1)
    v.extend_from_slice(&ext);
    v
}

#[test]
fn video_sample_description_parses_with_avcc_extension() {
    let mut mp4 = Mp4::new(video_table_bytes());
    let t = <SampleVideoDescriptionTable as Parse>::parse(&mut mp4).unwrap();
    assert_eq!(t.data_format, u32::from_be_bytes(*b"avc1"));
    assert_eq!(t.width, 1920);
    assert_eq!(t.height, 1080);
    assert_eq!(t.color_table_id, -1);
    assert_eq!(t.extensions.len(), 1);
    let a = t.avcc().expect("an avcC extension is present");
    assert_eq!(a.avc_profile_indication, 66);
    match &t.extensions[0] {
        VideoSampleExtension::AvcC(inner) => assert_eq!(inner, a),
        _ => panic!("expected an avcC extension"),
    }
}

#[test]
fn sample_description_dispatches_on_subtype() {
    let bytes = video_table_bytes();
    let len = bytes.len();
    let mut mp4 = Mp4::new(bytes);
    let base: Reference<mp4_parser::atom::media_data_type::BaseSampleDescriptionTable> =
        Reference::new(0, len);
    let vide = u32::from_be_bytes(*b"vide");
    let soun = u32::from_be_bytes(*b"soun");
    match base.parse_sample_description(&mut mp4, vide).unwrap() {
        SampleDescriptionTable::Video(t) => assert_eq!(t.height, 1080),
        _ => panic!("expected a video table"),
    }
    assert_eq!(
        base.parse_sample_description(&mut mp4, soun),
        Err(ParseError::UnknownVariant(soun))
    );
}

#[test]
fn stts_truncated_sequence_entry_is_reported() {
    // Declared end falls in the middle of a table entry.
    let mut bytes = frame(16 + 4, b"stts");
    bytes.push(0);
    bytes.extend_from_slice(&[0, 0, 0]);
    bytes.extend_from_slice(&be32(1));
    bytes.extend_from_slice(&be32(3)); // half an entry before the declared end
    bytes.extend_from_slice(&[0; 8]); // bytes beyond the atom
    let mut mp4 = Mp4::new(bytes);
    assert_eq!(
        <Stts as Parse>::parse(&mut mp4),
        Err(ParseError::TruncatedSequence)
    );
}

#[test]
fn stts_parses_run_table() {
    let mut bytes = frame(16 + 16, b"stts");
    bytes.push(0);
    bytes.extend_from_slice(&[0, 0, 0]);
    bytes.extend_from_slice(&be32(2));
    bytes.extend_from_slice(&be32(3));
    bytes.extend_from_slice(&be32(1000));
    bytes.extend_from_slice(&be32(2));
    bytes.extend_from_slice(&be32(500));
    let mut mp4 = Mp4::new(bytes);
    let t = <Stts as Parse>::parse(&mut mp4).unwrap();
    assert_eq!(t.number_of_entries, 2);
    assert_eq!(t.time_to_sample_table.len(), 2);
    assert_eq!(
        t.time_to_sample_table[0],
        TimeToSampleEntry {
            sample_count: 3,
            sample_duration: 1000
        }
    );
    assert_eq!(t.time_to_sample_table[1].sample_duration, 500);
}

#[test]
fn empty_atom_accepts_only_bare_frames() {
    let mut mp4 = Mp4::new(frame(8, b"clip"));
    assert!(<mp4_parser::atom::Clip as Parse>::parse(&mut mp4).is_ok());
    let mut bytes = frame(10, b"clip");
    bytes.extend_from_slice(&[0, 0]);
    let mut mp4 = Mp4::new(bytes);
    assert_eq!(
        <mp4_parser::atom::Clip as Parse>::parse(&mut mp4),
        Err(ParseError::FramingViolation)
    );
}

#[test]
fn unparsed_atom_into_ref_keeps_location() {
    let mut bytes = frame(8, b"free");
    bytes.extend_from_slice(&frame(8, b"skip"));
    let mut mp4 = Mp4::new(bytes);
    let a = <mp4_parser::atom::UnparsedAtom as Parse>::parse(&mut mp4).unwrap();
    assert_eq!(a.offset, 0);
    assert_eq!(a.len, 8);
    assert_eq!(a.header.0, u32::from_be_bytes(*b"free"));
    assert_eq!(mp4.position(), 8);
    let r: Reference<Alis> = a.into_ref();
    assert_eq!(r.offset, 0);
    assert_eq!(r.len, 8);
}
