use mp4_parser::atom::media_data_type::{
    AvcC, SampleDescriptionTable, SampleSoundVersion0DescriptionTable,
};
use mp4_parser::atom::sample_table::{Stco, Stsc, Stsz, Stts};
use mp4_parser::atom::track::Tkhd;
use mp4_parser::atom::{Mdat, Moov, Mvhd, Stsd};
use mp4_parser::{Mp4, Parse};

fn be32(v: u32) -> [u8; 4] {
    v.to_be_bytes()
}

fn be16(v: u16) -> [u8; 2] {
    v.to_be_bytes()
}

fn atom(tag: &[u8; 4], body: &[u8]) -> Vec<u8> {
    let mut v = Vec::new();
    v.extend_from_slice(&be32(8 + body.len() as u32));
    v.extend_from_slice(tag);
    v.extend_from_slice(body);
    v
}

fn full_atom(tag: &[u8; 4], rest: &[u8]) -> Vec<u8> {
    let mut body = vec![0, 0, 0, 0]; // version and flags
    body.extend_from_slice(rest);
    atom(tag, &body)
}

fn matrix_bytes() -> Vec<u8> {
    let mut v = Vec::new();
    for i in 1..=9u32 {
        v.extend_from_slice(&be32(i));
    }
    v
}

fn tkhd_bytes() -> Vec<u8> {
    let mut rest = Vec::new();
    rest.extend_from_slice(&be32(1)); // creation
    rest.extend_from_slice(&be32(2)); // modification
    rest.extend_from_slice(&be32(7)); // track id
    rest.extend_from_slice(&be32(0)); // reserved
    rest.extend_from_slice(&be32(6000)); // duration
    rest.extend_from_slice(&[0; 8]); // reserved
    rest.extend_from_slice(&be16(0)); // layer
    rest.extend_from_slice(&be16(0)); // alternate group
    rest.extend_from_slice(&be16(0x0100)); // volume
    rest.extend_from_slice(&be16(0)); // reserved
    rest.extend_from_slice(&matrix_bytes());
    rest.extend_from_slice(&be32(640 << 16)); // width
    rest.extend_from_slice(&be32(480 << 16)); // height
    full_atom(b"tkhd", &rest)
}

fn mdhd_bytes() -> Vec<u8> {
    let mut rest = Vec::new();
    rest.extend_from_slice(&be32(1));
    rest.extend_from_slice(&be32(2));
    rest.extend_from_slice(&be32(600)); // time scale
    rest.extend_from_slice(&be32(6000)); // duration
    rest.extend_from_slice(&be16(0));
    rest.extend_from_slice(&be16(0));
    full_atom(b"mdhd", &rest)
}

fn hdlr_bytes() -> Vec<u8> {
    let mut rest = Vec::new();
    rest.extend_from_slice(b"mhlr");
    rest.extend_from_slice(b"vide");
    rest.extend_from_slice(&be32(0));
    rest.extend_from_slice(&be32(0));
    rest.extend_from_slice(&be32(0));
    rest.extend_from_slice(b"handler");
    full_atom(b"hdlr", &rest)
}

fn video_table_bytes() -> Vec<u8> {
    let mut v = Vec::new();
    v.extend_from_slice(&be32(86)); // no extensions
    v.extend_from_slice(b"avc1");
    v.extend_from_slice(&[0; 6]);
    v.extend_from_slice(&be16(1));
    v.extend_from_slice(&be16(0));
    v.extend_from_slice(&be16(0));
    v.extend_from_slice(&be32(0));
    v.extend_from_slice(&be32(0));
    v.extend_from_slice(&be32(0));
    v.extend_from_slice(&be16(640));
    v.extend_from_slice(&be16(480));
    v.extend_from_slice(&be32(0x0048_0000));
    v.extend_from_slice(&be32(0x0048_0000));
    v.extend_from_slice(&be32(0));
    v.extend_from_slice(&be16(1));
    v.extend_from_slice(&[0; 32]);
    v.extend_from_slice(&be16(24));
    v.extend_from_slice(&be16(0xFFFF));
    v
}

/// A minimal movie: ftyp, then moov with one track whose sample table holds
/// 3 samples of duration 1000 in chunks of 2, then mdat with the sample
/// bytes.
fn movie_bytes() -> Vec<u8> {
    let stsd = {
        let mut rest = Vec::new();
        rest.extend_from_slice(&be32(1));
        rest.extend_from_slice(&video_table_bytes());
        full_atom(b"stsd", &rest)
    };
    let stts = {
        let mut rest = Vec::new();
        rest.extend_from_slice(&be32(1));
        rest.extend_from_slice(&be32(3));
        rest.extend_from_slice(&be32(1000));
        full_atom(b"stts", &rest)
    };
    let stsc = {
        let mut rest = Vec::new();
        rest.extend_from_slice(&be32(1));
        rest.extend_from_slice(&be32(1));
        rest.extend_from_slice(&be32(2));
        rest.extend_from_slice(&be32(1));
        full_atom(b"stsc", &rest)
    };
    let stsz = {
        let mut rest = Vec::new();
        rest.extend_from_slice(&be32(0)); // per-sample sizes follow
        rest.extend_from_slice(&be32(3));
        rest.extend_from_slice(&be32(4));
        rest.extend_from_slice(&be32(6));
        rest.extend_from_slice(&be32(2));
        full_atom(b"stsz", &rest)
    };
    let mdat_body: Vec<u8> = (0u8..12).collect();
    // mdat will start right after ftyp and moov; compute its body offset so
    // stco can point at the chunks inside it.
    let stbl_len = 8 + stsd.len() + stts.len() + stsc.len() + stsz.len() + 24;
    let minf_len = 8 + stbl_len;
    let mdia_len = 8 + mdhd_bytes().len() + hdlr_bytes().len() + minf_len;
    let trak_len = 8 + tkhd_bytes().len() + mdia_len;
    let moov_len = 8 + trak_len;
    let ftyp = {
        let mut v = Vec::new();
        v.extend_from_slice(b"qt  ");
        v.extend_from_slice(&be32(0));
        atom(b"ftyp", &v)
    };
    let mdat_body_offset = (ftyp.len() + moov_len + 8) as u32;
    let stco = {
        let mut rest = Vec::new();
        rest.extend_from_slice(&be32(2));
        rest.extend_from_slice(&be32(mdat_body_offset)); // chunk 0: samples 1-2
        rest.extend_from_slice(&be32(mdat_body_offset + 10)); // chunk 1: sample 3
        full_atom(b"stco", &rest)
    };
    let mut stbl_body = Vec::new();
    stbl_body.extend_from_slice(&stsd);
    stbl_body.extend_from_slice(&stts);
    stbl_body.extend_from_slice(&stsc);
    stbl_body.extend_from_slice(&stsz);
    stbl_body.extend_from_slice(&stco);
    let stbl = atom(b"stbl", &stbl_body);
    let mut minf_body = Vec::new();
    minf_body.extend_from_slice(&stbl);
    let minf = atom(b"minf", &minf_body);
    let mut mdia_body = Vec::new();
    mdia_body.extend_from_slice(&mdhd_bytes());
    mdia_body.extend_from_slice(&hdlr_bytes());
    mdia_body.extend_from_slice(&minf);
    let mdia = atom(b"mdia", &mdia_body);
    let mut trak_body = Vec::new();
    trak_body.extend_from_slice(&tkhd_bytes());
    trak_body.extend_from_slice(&mdia);
    let trak = atom(b"trak", &trak_body);
    let moov = atom(b"moov", &trak);
    assert_eq!(moov.len(), moov_len);
    let mdat = atom(b"mdat", &mdat_body);

    let mut file = Vec::new();
    file.extend_from_slice(&ftyp);
    file.extend_from_slice(&moov);
    file.extend_from_slice(&mdat);
    file
}

// The whole control flow of the design: open a cursor, skip ftyp, parse moov
// and mdat, resolve the track chain, and turn a time into a byte range.
#[test]
fn time_to_byte_range_end_to_end() {
    let file = movie_bytes();
    let mut mp4 = Mp4::new(file);

    mp4.skip_chunk().unwrap();
    let mut moov = <Moov as Parse>::parse(&mut mp4).unwrap();
    let mdat_body_offset = mp4.position() + 8;
    let mdat = <Mdat as Parse>::parse(&mut mp4).unwrap();
    assert_eq!(mdat.bytes.len(), 12);

    let traks = moov.trak();
    assert_eq!(traks.len(), 1);
    let mut trak = traks[0].parse(&mut mp4).unwrap();
    let tkhd = trak.track_header().unwrap().parse(&mut mp4).unwrap();
    assert_eq!(tkhd.track_id, 7);
    assert_eq!(tkhd.matrix.w, 9);
    assert_eq!(tkhd.track_width, 640 << 16);

    let mut mdia = trak.mdia().unwrap().parse(&mut mp4).unwrap();
    let mdhd = mdia.mdhd().unwrap().parse(&mut mp4).unwrap();
    assert_eq!(mdhd.time_scale, 600);
    let hdlr = mdia.hdlr().unwrap().parse(&mut mp4).unwrap();
    assert_eq!(hdlr.component_subtype, u32::from_be_bytes(*b"vide"));

    let mut minf = mdia.minf().unwrap().parse(&mut mp4).unwrap();
    let mut stbl = minf.stbl().unwrap().parse(&mut mp4).unwrap();
    let stsd: Stsd = stbl.sample_description().unwrap().parse(&mut mp4).unwrap();
    let stts: Stts = stbl.time_to_sample().unwrap().parse(&mut mp4).unwrap();
    let stsc: Stsc = stbl.sample_to_chunk().unwrap().parse(&mut mp4).unwrap();
    let stsz: Stsz = stbl.sample_size().unwrap().parse(&mut mp4).unwrap();
    let stco: Stco = stbl.chunk_offset().unwrap().parse(&mut mp4).unwrap();

    assert_eq!(stsd.entries.len(), 1);
    let table = mp4
        .parse_sample_description(stsd.entries[0], hdlr.component_subtype)
        .unwrap();
    let video = match table {
        SampleDescriptionTable::Video(v) => v,
        _ => panic!("expected a video description"),
    };
    assert_eq!(video.width, 640);
    assert!(video.avcc().is_none());

    // 2 seconds at time scale 600 falls within the second sample (durations
    // of 1000 media units each).
    let time = mdhd.convert_to_media_time(2) as u32;
    assert_eq!(time, 1200);
    let sample_id = stts.lookup_time(time);
    assert_eq!(sample_id, 2);
    let chunk_id = stsc.lookup_chunk(sample_id);
    assert_eq!(chunk_id, 1);
    // lookup_chunk numbers chunks from 1; the offset table is indexed 0-based
    // from the first chunk.
    let chunk_offset = stco.chunk_offset(chunk_id - 1);
    assert_eq!(chunk_offset as usize, mdat_body_offset);

    // The chunk offset locates the chunk; the sample's own offset adds the
    // sizes of the prior samples in the same chunk.
    let first_sample_of_chunk = 1;
    let mut sample_offset = chunk_offset as usize;
    for prior in first_sample_of_chunk..sample_id {
        sample_offset += stsz.sample_size(prior) as usize;
    }
    let sample_len = stsz.sample_size(sample_id) as usize;
    assert_eq!(sample_offset, mdat_body_offset + 4);
    assert_eq!(sample_len, 6);
    let rel = sample_offset - mdat_body_offset;
    assert_eq!(&mdat.bytes[rel..rel + sample_len], &[4, 5, 6, 7, 8, 9]);
}

#[test]
fn mvhd_parses_with_matrix() {
    let mut rest = Vec::new();
    rest.extend_from_slice(&be32(1)); // creation
    rest.extend_from_slice(&be32(2)); // modification
    rest.extend_from_slice(&be32(600)); // time scale
    rest.extend_from_slice(&be32(6000)); // duration
    rest.extend_from_slice(&be32(0x0001_0000)); // preferred rate
    rest.extend_from_slice(&be16(0x0100)); // preferred volume
    rest.extend_from_slice(&[0; 10]); // reserved
    rest.extend_from_slice(&matrix_bytes());
    for _ in 0..6 {
        rest.extend_from_slice(&be32(0));
    }
    rest.extend_from_slice(&be32(2)); // next track id
    let bytes = full_atom(b"mvhd", &rest);
    let mut mp4 = Mp4::new(bytes);
    let m = <Mvhd as Parse>::parse(&mut mp4).unwrap();
    assert_eq!(m.time_scale, 600);
    assert_eq!(m.preferred_rate, 0x0001_0000);
    assert_eq!(m.preferred_volume, 0x0100);
    assert_eq!(m.matrix.a, 1);
    assert_eq!(m.next_track_id, 2);
    assert_eq!(mp4.position(), 108);
}

#[test]
fn tkhd_parses_all_fields() {
    let mut mp4 = Mp4::new(tkhd_bytes());
    let t = <Tkhd as Parse>::parse(&mut mp4).unwrap();
    assert_eq!(t.track_id, 7);
    assert_eq!(t.duration, 6000);
    assert_eq!(t.volume, 0x0100);
    assert_eq!(t.track_height, 480 << 16);
    assert_eq!(mp4.position(), 92);
}

#[test]
fn avcc_extension_follows_high_profile_compatibility() {
    let mut v = Vec::new();
    v.extend_from_slice(&be32(19)); // 8 header + 6 fixed + pps count + 4 extension
    v.extend_from_slice(b"avcC");
    v.push(1);
    v.push(100);
    v.push(100); // profile compatibility 100 signals the extension
    v.push(40);
    v.push(0xFC | 3);
    v.push(0xE0); // no sps
    v.push(0); // no pps
    v.push(1); // chroma format
    v.push(0);
    v.push(0);
    v.push(0); // no sps extensions
    let mut mp4 = Mp4::new(v);
    let a = <AvcC as Parse>::parse(&mut mp4).unwrap();
    let ext = a.extension.expect("the extension is present");
    assert_eq!(ext.chroma_format, 1);
    assert!(ext.sequence_parameter_set_extension.is_empty());
}

#[test]
fn sound_table_parses() {
    let mut v = Vec::new();
    v.extend_from_slice(&be32(36));
    v.extend_from_slice(b"sowt");
    v.extend_from_slice(&[0; 6]);
    v.extend_from_slice(&be16(1));
    v.extend_from_slice(&be16(0));
    v.extend_from_slice(&be16(0));
    v.extend_from_slice(&be32(0));
    v.extend_from_slice(&be16(2)); // channels
    v.extend_from_slice(&be16(16)); // sample size
    v.extend_from_slice(&be16(0));
    v.extend_from_slice(&be16(0));
    v.extend_from_slice(&be32(44100 << 16));
    let mut mp4 = Mp4::new(v);
    let t = <SampleSoundVersion0DescriptionTable as Parse>::parse(&mut mp4).unwrap();
    assert_eq!(t.number_of_channels, 2);
    assert_eq!(t.sample_size, 16);
    assert_eq!(t.sample_rate, 44100 << 16);
}

#[test]
fn read_parseable_seeks_first() {
    let mut front = vec![0xAB; 5];
    front.extend_from_slice(&mdhd_bytes());
    let mut mp4 = Mp4::new(front);
    let m: mp4_parser::atom::Mdhd = mp4.read_parseable(5).unwrap();
    assert_eq!(m.time_scale, 600);
    assert_eq!(mp4.position(), 5 + 32);
}
