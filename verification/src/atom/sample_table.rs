use vstd::prelude::*;

use crate::error::ParseError;
use crate::reader::{be_i32_at, be_u32_at};
use crate::{
    parse_elems_until, read_fill, read_leaf_frame, spec_fill, spec_leaf_frame,
    spec_parse_elems_until, Mp4, Parse,
};

use super::header::{CSLG, CTTS, SBGP, SGPD, SDTP, STCO, STPS, STSC, STSS, STSZ, STTS, CO64, STSH};
use super::{parse_empty_leaf, spec_empty_leaf};

verus! {


/// One run of a `stts` table: `sample_count` consecutive samples, each
/// lasting `sample_duration` media-time units.
#[derive(Debug, Clone, Copy, PartialEq, Eq)]
pub struct TimeToSampleEntry {
    pub sample_count: u32,
    pub sample_duration: u32,
}

impl DeepView for TimeToSampleEntry {
    type V = TimeToSampleEntry;

    open spec fn deep_view(&self) -> TimeToSampleEntry {
        *self
    }
}

impl Parse for TimeToSampleEntry {
    open spec fn spec_parse(b: Seq<u8>, pos: int) -> Result<(TimeToSampleEntry, int), ParseError> {
        if pos + 8 > b.len() {
            Err(ParseError::Truncated)
        } else {
            Ok((TimeToSampleEntry { sample_count: be_u32_at(b, pos) as u32, sample_duration: be_u32_at(b, pos + 4) as u32 }, pos + 8))
        }
    }

    fn parse(mp4: &mut Mp4) -> (r: Result<TimeToSampleEntry, ParseError>) {
        let sample_count = match mp4.reader.read_u32() {
            Ok(v) => v,
            Err(e) => {
                return Err(e);
            },
        };
        let sample_duration = match mp4.reader.read_u32() {
            Ok(v) => v,
            Err(e) => {
                return Err(e);
            },
        };
        Ok(TimeToSampleEntry { sample_count, sample_duration })
    }
}

/// One run of a `ctts` table: `sample_count` consecutive samples sharing one
/// composition offset.
#[derive(Debug, Clone, Copy, PartialEq, Eq)]
pub struct CompositionOffsetEntry {
    pub sample_count: u32,
    pub composition_offset: i32,
}

impl DeepView for CompositionOffsetEntry {
    type V = CompositionOffsetEntry;

    open spec fn deep_view(&self) -> CompositionOffsetEntry {
        *self
    }
}

impl Parse for CompositionOffsetEntry {
    open spec fn spec_parse(b: Seq<u8>, pos: int) -> Result<(CompositionOffsetEntry, int), ParseError> {
        if pos + 8 > b.len() {
            Err(ParseError::Truncated)
        } else {
            Ok((CompositionOffsetEntry { sample_count: be_u32_at(b, pos) as u32, composition_offset: be_i32_at(b, pos + 4) as i32 }, pos + 8))
        }
    }

    fn parse(mp4: &mut Mp4) -> (r: Result<CompositionOffsetEntry, ParseError>) {
        let sample_count = match mp4.reader.read_u32() {
            Ok(v) => v,
            Err(e) => {
                return Err(e);
            },
        };
        let composition_offset = match mp4.reader.read_i32() {
            Ok(v) => v,
            Err(e) => {
                return Err(e);
            },
        };
        Ok(CompositionOffsetEntry { sample_count, composition_offset })
    }
}

/// One run of a `stsc` table: from `first_chunk` on, until the next run's
/// first chunk, every chunk holds `samples_per_chunk` samples.
#[derive(Debug, Clone, Copy, PartialEq, Eq)]
pub struct SampleToChunkEntry {
    pub first_chunk: u32,
    pub samples_per_chunk: u32,
    pub sample_description_id: u32,
}

impl DeepView for SampleToChunkEntry {
    type V = SampleToChunkEntry;

    open spec fn deep_view(&self) -> SampleToChunkEntry {
        *self
    }
}

impl Parse for SampleToChunkEntry {
    open spec fn spec_parse(b: Seq<u8>, pos: int) -> Result<(SampleToChunkEntry, int), ParseError> {
        if pos + 12 > b.len() {
            Err(ParseError::Truncated)
        } else {
            Ok((SampleToChunkEntry { first_chunk: be_u32_at(b, pos) as u32, samples_per_chunk: be_u32_at(b, pos + 4) as u32, sample_description_id: be_u32_at(b, pos + 8) as u32 }, pos + 12))
        }
    }

    fn parse(mp4: &mut Mp4) -> (r: Result<SampleToChunkEntry, ParseError>) {
        let first_chunk = match mp4.reader.read_u32() {
            Ok(v) => v,
            Err(e) => {
                return Err(e);
            },
        };
        let samples_per_chunk = match mp4.reader.read_u32() {
            Ok(v) => v,
            Err(e) => {
                return Err(e);
            },
        };
        let sample_description_id = match mp4.reader.read_u32() {
            Ok(v) => v,
            Err(e) => {
                return Err(e);
            },
        };
        Ok(SampleToChunkEntry { first_chunk, samples_per_chunk, sample_description_id })
    }
}

/// The `stts` time-to-sample atom: run-length durations that collectively
/// describe every sample in decode order.
#[derive(Debug, Clone, PartialEq, Eq)]
pub struct Stts {
    pub version: u8,
    pub flags: Vec<u8>,
    pub number_of_entries: u32,
    pub time_to_sample_table: Vec<TimeToSampleEntry>,
}

/// The ghost content of a `Stts`.
pub struct SpecStts {
    pub version: u8,
    pub flags: Seq<u8>,
    pub number_of_entries: u32,
    pub time_to_sample_table: Seq<TimeToSampleEntry>,
}

impl DeepView for Stts {
    type V = SpecStts;

    open spec fn deep_view(&self) -> SpecStts {
        SpecStts {
            version: self.version,
            flags: self.flags@,
            number_of_entries: self.number_of_entries,
            time_to_sample_table: self.time_to_sample_table.deep_view(),
        }
    }
}

impl Parse for Stts {
    open spec fn spec_parse(b: Seq<u8>, pos: int) -> Result<(SpecStts, int), ParseError> {
        match spec_leaf_frame(b, pos, STTS) {
            Err(e) => Err(e),
            Ok(l) => {
                if pos + 16 > b.len() {
                    Err(ParseError::Truncated)
                } else {
                    match spec_parse_elems_until::<TimeToSampleEntry>(b, pos + 16, pos + l) {
                        Err(e) => Err(e),
                        Ok(rs) => {
                            if rs.1 != pos + l {
                                Err(ParseError::FramingViolation)
                            } else {
                                Ok((SpecStts { version: b[pos + 8], flags: b.subrange(pos + 9, pos + 9 + 3), number_of_entries: be_u32_at(b, pos + 12) as u32, time_to_sample_table: rs.0 }, pos + l))
                            }
                        },
                    }
                }
            },
        }
    }

    fn parse(mp4: &mut Mp4) -> (r: Result<Stts, ParseError>) {
        let start = mp4.position();
        let l = match read_leaf_frame(mp4, STTS) {
            Ok(v) => v,
            Err(e) => {
                return Err(e);
            },
        };
        let end = start + l;
        let version = match mp4.reader.read_u8() {
            Ok(v) => v,
            Err(e) => {
                return Err(e);
            },
        };
        let flags = match mp4.reader.read_bytes_dyn(3) {
            Ok(v) => v,
            Err(e) => {
                return Err(e);
            },
        };
        let number_of_entries = match mp4.reader.read_u32() {
            Ok(v) => v,
            Err(e) => {
                return Err(e);
            },
        };
        let time_to_sample_table = match parse_elems_until::<TimeToSampleEntry>(mp4, end) {
            Ok(v) => v,
            Err(e) => {
                return Err(e);
            },
        };
        if mp4.position() != end {
            return Err(ParseError::FramingViolation);
        }
        Ok(Stts { version, flags, number_of_entries, time_to_sample_table })
    }
}

/// The `ctts` composition offset atom.
#[derive(Debug, Clone, PartialEq, Eq)]
pub struct Ctts {
    pub version: u8,
    pub flags: Vec<u8>,
    pub number_of_entries: u32,
    pub composition_offset_table: Vec<CompositionOffsetEntry>,
}

/// The ghost content of a `Ctts`.
pub struct SpecCtts {
    pub version: u8,
    pub flags: Seq<u8>,
    pub number_of_entries: u32,
    pub composition_offset_table: Seq<CompositionOffsetEntry>,
}

impl DeepView for Ctts {
    type V = SpecCtts;

    open spec fn deep_view(&self) -> SpecCtts {
        SpecCtts {
            version: self.version,
            flags: self.flags@,
            number_of_entries: self.number_of_entries,
            composition_offset_table: self.composition_offset_table.deep_view(),
        }
    }
}

impl Parse for Ctts {
    open spec fn spec_parse(b: Seq<u8>, pos: int) -> Result<(SpecCtts, int), ParseError> {
        match spec_leaf_frame(b, pos, CTTS) {
            Err(e) => Err(e),
            Ok(l) => {
                if pos + 16 > b.len() {
                    Err(ParseError::Truncated)
                } else {
                    match spec_parse_elems_until::<CompositionOffsetEntry>(b, pos + 16, pos + l) {
                        Err(e) => Err(e),
                        Ok(rs) => {
                            if rs.1 != pos + l {
                                Err(ParseError::FramingViolation)
                            } else {
                                Ok((SpecCtts { version: b[pos + 8], flags: b.subrange(pos + 9, pos + 9 + 3), number_of_entries: be_u32_at(b, pos + 12) as u32, composition_offset_table: rs.0 }, pos + l))
                            }
                        },
                    }
                }
            },
        }
    }

    fn parse(mp4: &mut Mp4) -> (r: Result<Ctts, ParseError>) {
        let start = mp4.position();
        let l = match read_leaf_frame(mp4, CTTS) {
            Ok(v) => v,
            Err(e) => {
                return Err(e);
            },
        };
        let end = start + l;
        let version = match mp4.reader.read_u8() {
            Ok(v) => v,
            Err(e) => {
                return Err(e);
            },
        };
        let flags = match mp4.reader.read_bytes_dyn(3) {
            Ok(v) => v,
            Err(e) => {
                return Err(e);
            },
        };
        let number_of_entries = match mp4.reader.read_u32() {
            Ok(v) => v,
            Err(e) => {
                return Err(e);
            },
        };
        let composition_offset_table = match parse_elems_until::<CompositionOffsetEntry>(mp4, end) {
            Ok(v) => v,
            Err(e) => {
                return Err(e);
            },
        };
        if mp4.position() != end {
            return Err(ParseError::FramingViolation);
        }
        Ok(Ctts { version, flags, number_of_entries, composition_offset_table })
    }
}

/// The `cslg` composition shift least greatest atom.
#[derive(Debug, Clone, PartialEq, Eq)]
pub struct Cslg {
    pub version: u8,
    pub flags: Vec<u8>,
    pub composition_offset_to_display_offset_shift: u32,
    pub least_display_offset: i32,
    pub greatest_display_offset: i32,
    pub display_start_time: i32,
    pub display_end_time: i32,
}

/// The ghost content of a `Cslg`.
pub struct SpecCslg {
    pub version: u8,
    pub flags: Seq<u8>,
    pub composition_offset_to_display_offset_shift: u32,
    pub least_display_offset: i32,
    pub greatest_display_offset: i32,
    pub display_start_time: i32,
    pub display_end_time: i32,
}

impl DeepView for Cslg {
    type V = SpecCslg;

    open spec fn deep_view(&self) -> SpecCslg {
        SpecCslg {
            version: self.version,
            flags: self.flags@,
            composition_offset_to_display_offset_shift: self.composition_offset_to_display_offset_shift,
            least_display_offset: self.least_display_offset,
            greatest_display_offset: self.greatest_display_offset,
            display_start_time: self.display_start_time,
            display_end_time: self.display_end_time,
        }
    }
}

impl Parse for Cslg {
    open spec fn spec_parse(b: Seq<u8>, pos: int) -> Result<(SpecCslg, int), ParseError> {
        match spec_leaf_frame(b, pos, CSLG) {
            Err(e) => Err(e),
            Ok(l) => {
                                if pos + 32 > b.len() {
                    Err(ParseError::Truncated)
                } else if l != 32 {
                    Err(ParseError::FramingViolation)
                } else {
                    Ok((SpecCslg { version: b[pos + 8], flags: b.subrange(pos + 9, pos + 9 + 3), composition_offset_to_display_offset_shift: be_u32_at(b, pos + 12) as u32, least_display_offset: be_i32_at(b, pos + 16) as i32, greatest_display_offset: be_i32_at(b, pos + 20) as i32, display_start_time: be_i32_at(b, pos + 24) as i32, display_end_time: be_i32_at(b, pos + 28) as i32 }, pos + 32))
                }
            },
        }
    }

    fn parse(mp4: &mut Mp4) -> (r: Result<Cslg, ParseError>) {
        let start = mp4.position();
        let l = match read_leaf_frame(mp4, CSLG) {
            Ok(v) => v,
            Err(e) => {
                return Err(e);
            },
        };
        let end = start + l;
        let version = match mp4.reader.read_u8() {
            Ok(v) => v,
            Err(e) => {
                return Err(e);
            },
        };
        let flags = match mp4.reader.read_bytes_dyn(3) {
            Ok(v) => v,
            Err(e) => {
                return Err(e);
            },
        };
        let composition_offset_to_display_offset_shift = match mp4.reader.read_u32() {
            Ok(v) => v,
            Err(e) => {
                return Err(e);
            },
        };
        let least_display_offset = match mp4.reader.read_i32() {
            Ok(v) => v,
            Err(e) => {
                return Err(e);
            },
        };
        let greatest_display_offset = match mp4.reader.read_i32() {
            Ok(v) => v,
            Err(e) => {
                return Err(e);
            },
        };
        let display_start_time = match mp4.reader.read_i32() {
            Ok(v) => v,
            Err(e) => {
                return Err(e);
            },
        };
        let display_end_time = match mp4.reader.read_i32() {
            Ok(v) => v,
            Err(e) => {
                return Err(e);
            },
        };
        if mp4.position() != end {
            return Err(ParseError::FramingViolation);
        }
        Ok(Cslg { version, flags, composition_offset_to_display_offset_shift, least_display_offset, greatest_display_offset, display_start_time, display_end_time })
    }
}

/// The `stss` sync sample atom, its table kept as raw trailing bytes.
#[derive(Debug, Clone, PartialEq, Eq)]
pub struct Stss {
    pub version: u8,
    pub flags: Vec<u8>,
    pub number_of_entries: u32,
    pub sync_sample_table: Vec<u8>,
}

/// The ghost content of a `Stss`.
pub struct SpecStss {
    pub version: u8,
    pub flags: Seq<u8>,
    pub number_of_entries: u32,
    pub sync_sample_table: Seq<u8>,
}

impl DeepView for Stss {
    type V = SpecStss;

    open spec fn deep_view(&self) -> SpecStss {
        SpecStss {
            version: self.version,
            flags: self.flags@,
            number_of_entries: self.number_of_entries,
            sync_sample_table: self.sync_sample_table@,
        }
    }
}

impl Parse for Stss {
    open spec fn spec_parse(b: Seq<u8>, pos: int) -> Result<(SpecStss, int), ParseError> {
        match spec_leaf_frame(b, pos, STSS) {
            Err(e) => Err(e),
            Ok(l) => {
                if pos + 16 > b.len() {
                    Err(ParseError::Truncated)
                } else {
                    let tail = spec_fill(b, pos + 16, pos + l);
                    if tail.1 != pos + l {
                        Err(ParseError::FramingViolation)
                    } else {
                        Ok((SpecStss { version: b[pos + 8], flags: b.subrange(pos + 9, pos + 9 + 3), number_of_entries: be_u32_at(b, pos + 12) as u32, sync_sample_table: tail.0 }, pos + l))
                    }
                }
            },
        }
    }

    fn parse(mp4: &mut Mp4) -> (r: Result<Stss, ParseError>) {
        let start = mp4.position();
        let l = match read_leaf_frame(mp4, STSS) {
            Ok(v) => v,
            Err(e) => {
                return Err(e);
            },
        };
        let end = start + l;
        let version = match mp4.reader.read_u8() {
            Ok(v) => v,
            Err(e) => {
                return Err(e);
            },
        };
        let flags = match mp4.reader.read_bytes_dyn(3) {
            Ok(v) => v,
            Err(e) => {
                return Err(e);
            },
        };
        let number_of_entries = match mp4.reader.read_u32() {
            Ok(v) => v,
            Err(e) => {
                return Err(e);
            },
        };
        let sync_sample_table = read_fill(mp4, end);
        if mp4.position() != end {
            return Err(ParseError::FramingViolation);
        }
        Ok(Stss { version, flags, number_of_entries, sync_sample_table })
    }
}

/// The `stps` partial sync sample atom, its table kept as raw trailing bytes.
#[derive(Debug, Clone, PartialEq, Eq)]
pub struct Stps {
    pub version: u8,
    pub flags: Vec<u8>,
    pub number_of_entries: u32,
    pub partial_sync_sample_table: Vec<u8>,
}

/// The ghost content of a `Stps`.
pub struct SpecStps {
    pub version: u8,
    pub flags: Seq<u8>,
    pub number_of_entries: u32,
    pub partial_sync_sample_table: Seq<u8>,
}

impl DeepView for Stps {
    type V = SpecStps;

    open spec fn deep_view(&self) -> SpecStps {
        SpecStps {
            version: self.version,
            flags: self.flags@,
            number_of_entries: self.number_of_entries,
            partial_sync_sample_table: self.partial_sync_sample_table@,
        }
    }
}

impl Parse for Stps {
    open spec fn spec_parse(b: Seq<u8>, pos: int) -> Result<(SpecStps, int), ParseError> {
        match spec_leaf_frame(b, pos, STPS) {
            Err(e) => Err(e),
            Ok(l) => {
                if pos + 16 > b.len() {
                    Err(ParseError::Truncated)
                } else {
                    let tail = spec_fill(b, pos + 16, pos + l);
                    if tail.1 != pos + l {
                        Err(ParseError::FramingViolation)
                    } else {
                        Ok((SpecStps { version: b[pos + 8], flags: b.subrange(pos + 9, pos + 9 + 3), number_of_entries: be_u32_at(b, pos + 12) as u32, partial_sync_sample_table: tail.0 }, pos + l))
                    }
                }
            },
        }
    }

    fn parse(mp4: &mut Mp4) -> (r: Result<Stps, ParseError>) {
        let start = mp4.position();
        let l = match read_leaf_frame(mp4, STPS) {
            Ok(v) => v,
            Err(e) => {
                return Err(e);
            },
        };
        let end = start + l;
        let version = match mp4.reader.read_u8() {
            Ok(v) => v,
            Err(e) => {
                return Err(e);
            },
        };
        let flags = match mp4.reader.read_bytes_dyn(3) {
            Ok(v) => v,
            Err(e) => {
                return Err(e);
            },
        };
        let number_of_entries = match mp4.reader.read_u32() {
            Ok(v) => v,
            Err(e) => {
                return Err(e);
            },
        };
        let partial_sync_sample_table = read_fill(mp4, end);
        if mp4.position() != end {
            return Err(ParseError::FramingViolation);
        }
        Ok(Stps { version, flags, number_of_entries, partial_sync_sample_table })
    }
}

/// The `stsc` sample-to-chunk atom: run-length mapping from chunk numbers to
/// the count of samples each chunk holds.
#[derive(Debug, Clone, PartialEq, Eq)]
pub struct Stsc {
    pub version: u8,
    pub flags: Vec<u8>,
    pub number_of_entries: u32,
    pub sample_to_chunk_table: Vec<SampleToChunkEntry>,
}

/// The ghost content of a `Stsc`.
pub struct SpecStsc {
    pub version: u8,
    pub flags: Seq<u8>,
    pub number_of_entries: u32,
    pub sample_to_chunk_table: Seq<SampleToChunkEntry>,
}

impl DeepView for Stsc {
    type V = SpecStsc;

    open spec fn deep_view(&self) -> SpecStsc {
        SpecStsc {
            version: self.version,
            flags: self.flags@,
            number_of_entries: self.number_of_entries,
            sample_to_chunk_table: self.sample_to_chunk_table.deep_view(),
        }
    }
}

impl Parse for Stsc {
    open spec fn spec_parse(b: Seq<u8>, pos: int) -> Result<(SpecStsc, int), ParseError> {
        match spec_leaf_frame(b, pos, STSC) {
            Err(e) => Err(e),
            Ok(l) => {
                if pos + 16 > b.len() {
                    Err(ParseError::Truncated)
                } else {
                    match spec_parse_elems_until::<SampleToChunkEntry>(b, pos + 16, pos + l) {
                        Err(e) => Err(e),
                        Ok(rs) => {
                            if rs.1 != pos + l {
                                Err(ParseError::FramingViolation)
                            } else {
                                Ok((SpecStsc { version: b[pos + 8], flags: b.subrange(pos + 9, pos + 9 + 3), number_of_entries: be_u32_at(b, pos + 12) as u32, sample_to_chunk_table: rs.0 }, pos + l))
                            }
                        },
                    }
                }
            },
        }
    }

    fn parse(mp4: &mut Mp4) -> (r: Result<Stsc, ParseError>) {
        let start = mp4.position();
        let l = match read_leaf_frame(mp4, STSC) {
            Ok(v) => v,
            Err(e) => {
                return Err(e);
            },
        };
        let end = start + l;
        let version = match mp4.reader.read_u8() {
            Ok(v) => v,
            Err(e) => {
                return Err(e);
            },
        };
        let flags = match mp4.reader.read_bytes_dyn(3) {
            Ok(v) => v,
            Err(e) => {
                return Err(e);
            },
        };
        let number_of_entries = match mp4.reader.read_u32() {
            Ok(v) => v,
            Err(e) => {
                return Err(e);
            },
        };
        let sample_to_chunk_table = match parse_elems_until::<SampleToChunkEntry>(mp4, end) {
            Ok(v) => v,
            Err(e) => {
                return Err(e);
            },
        };
        if mp4.position() != end {
            return Err(ParseError::FramingViolation);
        }
        Ok(Stsc { version, flags, number_of_entries, sample_to_chunk_table })
    }
}

/// The `stsz` sample size atom: one fixed size for all samples when
/// `sample_size` is non-zero, else one table entry per sample.
#[derive(Debug, Clone, PartialEq, Eq)]
pub struct Stsz {
    pub version: u8,
    pub flags: Vec<u8>,
    pub sample_size: u32,
    pub number_of_entries: u32,
    pub sample_size_table: Vec<u32>,
}

/// The ghost content of a `Stsz`.
pub struct SpecStsz {
    pub version: u8,
    pub flags: Seq<u8>,
    pub sample_size: u32,
    pub number_of_entries: u32,
    pub sample_size_table: Seq<u32>,
}

impl DeepView for Stsz {
    type V = SpecStsz;

    open spec fn deep_view(&self) -> SpecStsz {
        SpecStsz {
            version: self.version,
            flags: self.flags@,
            sample_size: self.sample_size,
            number_of_entries: self.number_of_entries,
            sample_size_table: self.sample_size_table.deep_view(),
        }
    }
}

impl Parse for Stsz {
    open spec fn spec_parse(b: Seq<u8>, pos: int) -> Result<(SpecStsz, int), ParseError> {
        match spec_leaf_frame(b, pos, STSZ) {
            Err(e) => Err(e),
            Ok(l) => {
                if pos + 20 > b.len() {
                    Err(ParseError::Truncated)
                } else {
                    match spec_parse_elems_until::<u32>(b, pos + 20, pos + l) {
                        Err(e) => Err(e),
                        Ok(rs) => {
                            if rs.1 != pos + l {
                                Err(ParseError::FramingViolation)
                            } else {
                                Ok((SpecStsz { version: b[pos + 8], flags: b.subrange(pos + 9, pos + 9 + 3), sample_size: be_u32_at(b, pos + 12) as u32, number_of_entries: be_u32_at(b, pos + 16) as u32, sample_size_table: rs.0 }, pos + l))
                            }
                        },
                    }
                }
            },
        }
    }

    fn parse(mp4: &mut Mp4) -> (r: Result<Stsz, ParseError>) {
        let start = mp4.position();
        let l = match read_leaf_frame(mp4, STSZ) {
            Ok(v) => v,
            Err(e) => {
                return Err(e);
            },
        };
        let end = start + l;
        let version = match mp4.reader.read_u8() {
            Ok(v) => v,
            Err(e) => {
                return Err(e);
            },
        };
        let flags = match mp4.reader.read_bytes_dyn(3) {
            Ok(v) => v,
            Err(e) => {
                return Err(e);
            },
        };
        let sample_size = match mp4.reader.read_u32() {
            Ok(v) => v,
            Err(e) => {
                return Err(e);
            },
        };
        let number_of_entries = match mp4.reader.read_u32() {
            Ok(v) => v,
            Err(e) => {
                return Err(e);
            },
        };
        let sample_size_table = match parse_elems_until::<u32>(mp4, end) {
            Ok(v) => v,
            Err(e) => {
                return Err(e);
            },
        };
        if mp4.position() != end {
            return Err(ParseError::FramingViolation);
        }
        Ok(Stsz { version, flags, sample_size, number_of_entries, sample_size_table })
    }
}

/// The `sdtp` sample dependency flags atom.
#[derive(Debug, Clone, PartialEq, Eq)]
pub struct Sdtp {
    pub version: u8,
    pub flags: Vec<u8>,
    pub sample_dependency_flags_table: Vec<u8>,
}

/// The ghost content of a `Sdtp`.
pub struct SpecSdtp {
    pub version: u8,
    pub flags: Seq<u8>,
    pub sample_dependency_flags_table: Seq<u8>,
}

impl DeepView for Sdtp {
    type V = SpecSdtp;

    open spec fn deep_view(&self) -> SpecSdtp {
        SpecSdtp {
            version: self.version,
            flags: self.flags@,
            sample_dependency_flags_table: self.sample_dependency_flags_table@,
        }
    }
}

impl Parse for Sdtp {
    open spec fn spec_parse(b: Seq<u8>, pos: int) -> Result<(SpecSdtp, int), ParseError> {
        match spec_leaf_frame(b, pos, SDTP) {
            Err(e) => Err(e),
            Ok(l) => {
                if pos + 12 > b.len() {
                    Err(ParseError::Truncated)
                } else {
                    let tail = spec_fill(b, pos + 12, pos + l);
                    if tail.1 != pos + l {
                        Err(ParseError::FramingViolation)
                    } else {
                        Ok((SpecSdtp { version: b[pos + 8], flags: b.subrange(pos + 9, pos + 9 + 3), sample_dependency_flags_table: tail.0 }, pos + l))
                    }
                }
            },
        }
    }

    fn parse(mp4: &mut Mp4) -> (r: Result<Sdtp, ParseError>) {
        let start = mp4.position();
        let l = match read_leaf_frame(mp4, SDTP) {
            Ok(v) => v,
            Err(e) => {
                return Err(e);
            },
        };
        let end = start + l;
        let version = match mp4.reader.read_u8() {
            Ok(v) => v,
            Err(e) => {
                return Err(e);
            },
        };
        let flags = match mp4.reader.read_bytes_dyn(3) {
            Ok(v) => v,
            Err(e) => {
                return Err(e);
            },
        };
        let sample_dependency_flags_table = read_fill(mp4, end);
        if mp4.position() != end {
            return Err(ParseError::FramingViolation);
        }
        Ok(Sdtp { version, flags, sample_dependency_flags_table })
    }
}

/// The `stco` chunk offset atom: absolute 32-bit byte offsets into the file,
/// one per chunk, indexed 0-based.
#[derive(Debug, Clone, PartialEq, Eq)]
pub struct Stco {
    pub version: u8,
    pub flags: Vec<u8>,
    pub number_of_entries: u32,
    pub chunk_offset_table: Vec<u32>,
}

/// The ghost content of a `Stco`.
pub struct SpecStco {
    pub version: u8,
    pub flags: Seq<u8>,
    pub number_of_entries: u32,
    pub chunk_offset_table: Seq<u32>,
}

impl DeepView for Stco {
    type V = SpecStco;

    open spec fn deep_view(&self) -> SpecStco {
        SpecStco {
            version: self.version,
            flags: self.flags@,
            number_of_entries: self.number_of_entries,
            chunk_offset_table: self.chunk_offset_table.deep_view(),
        }
    }
}

impl Parse for Stco {
    open spec fn spec_parse(b: Seq<u8>, pos: int) -> Result<(SpecStco, int), ParseError> {
        match spec_leaf_frame(b, pos, STCO) {
            Err(e) => Err(e),
            Ok(l) => {
                if pos + 16 > b.len() {
                    Err(ParseError::Truncated)
                } else {
                    match spec_parse_elems_until::<u32>(b, pos + 16, pos + l) {
                        Err(e) => Err(e),
                        Ok(rs) => {
                            if rs.1 != pos + l {
                                Err(ParseError::FramingViolation)
                            } else {
                                Ok((SpecStco { version: b[pos + 8], flags: b.subrange(pos + 9, pos + 9 + 3), number_of_entries: be_u32_at(b, pos + 12) as u32, chunk_offset_table: rs.0 }, pos + l))
                            }
                        },
                    }
                }
            },
        }
    }

    fn parse(mp4: &mut Mp4) -> (r: Result<Stco, ParseError>) {
        let start = mp4.position();
        let l = match read_leaf_frame(mp4, STCO) {
            Ok(v) => v,
            Err(e) => {
                return Err(e);
            },
        };
        let end = start + l;
        let version = match mp4.reader.read_u8() {
            Ok(v) => v,
            Err(e) => {
                return Err(e);
            },
        };
        let flags = match mp4.reader.read_bytes_dyn(3) {
            Ok(v) => v,
            Err(e) => {
                return Err(e);
            },
        };
        let number_of_entries = match mp4.reader.read_u32() {
            Ok(v) => v,
            Err(e) => {
                return Err(e);
            },
        };
        let chunk_offset_table = match parse_elems_until::<u32>(mp4, end) {
            Ok(v) => v,
            Err(e) => {
                return Err(e);
            },
        };
        if mp4.position() != end {
            return Err(ParseError::FramingViolation);
        }
        Ok(Stco { version, flags, number_of_entries, chunk_offset_table })
    }
}

/// The `co64` chunk offset atom: absolute 64-bit byte offsets, used in place
/// of `stco` when 32 bits cannot hold them.
#[derive(Debug, Clone, PartialEq, Eq)]
pub struct Co64 {
    pub version: u8,
    pub flags: Vec<u8>,
    pub number_of_entries: u32,
    pub chunk_offset_table: Vec<u64>,
}

/// The ghost content of a `Co64`.
pub struct SpecCo64 {
    pub version: u8,
    pub flags: Seq<u8>,
    pub number_of_entries: u32,
    pub chunk_offset_table: Seq<u64>,
}

impl DeepView for Co64 {
    type V = SpecCo64;

    open spec fn deep_view(&self) -> SpecCo64 {
        SpecCo64 {
            version: self.version,
            flags: self.flags@,
            number_of_entries: self.number_of_entries,
            chunk_offset_table: self.chunk_offset_table.deep_view(),
        }
    }
}

impl Parse for Co64 {
    open spec fn spec_parse(b: Seq<u8>, pos: int) -> Result<(SpecCo64, int), ParseError> {
        match spec_leaf_frame(b, pos, CO64) {
            Err(e) => Err(e),
            Ok(l) => {
                if pos + 16 > b.len() {
                    Err(ParseError::Truncated)
                } else {
                    match spec_parse_elems_until::<u64>(b, pos + 16, pos + l) {
                        Err(e) => Err(e),
                        Ok(rs) => {
                            if rs.1 != pos + l {
                                Err(ParseError::FramingViolation)
                            } else {
                                Ok((SpecCo64 { version: b[pos + 8], flags: b.subrange(pos + 9, pos + 9 + 3), number_of_entries: be_u32_at(b, pos + 12) as u32, chunk_offset_table: rs.0 }, pos + l))
                            }
                        },
                    }
                }
            },
        }
    }

    fn parse(mp4: &mut Mp4) -> (r: Result<Co64, ParseError>) {
        let start = mp4.position();
        let l = match read_leaf_frame(mp4, CO64) {
            Ok(v) => v,
            Err(e) => {
                return Err(e);
            },
        };
        let end = start + l;
        let version = match mp4.reader.read_u8() {
            Ok(v) => v,
            Err(e) => {
                return Err(e);
            },
        };
        let flags = match mp4.reader.read_bytes_dyn(3) {
            Ok(v) => v,
            Err(e) => {
                return Err(e);
            },
        };
        let number_of_entries = match mp4.reader.read_u32() {
            Ok(v) => v,
            Err(e) => {
                return Err(e);
            },
        };
        let chunk_offset_table = match parse_elems_until::<u64>(mp4, end) {
            Ok(v) => v,
            Err(e) => {
                return Err(e);
            },
        };
        if mp4.position() != end {
            return Err(ParseError::FramingViolation);
        }
        Ok(Co64 { version, flags, number_of_entries, chunk_offset_table })
    }
}

/// The `stsh` atom: no fields of its own; well-formed only as a bare 8-byte
/// frame.
#[derive(Debug, Clone, Copy, PartialEq, Eq)]
pub struct Stsh {}

impl DeepView for Stsh {
    type V = Stsh;

    open spec fn deep_view(&self) -> Stsh {
        *self
    }
}

impl Parse for Stsh {
    open spec fn spec_parse(b: Seq<u8>, pos: int) -> Result<(Stsh, int), ParseError> {
        match spec_empty_leaf(b, pos, STSH) {
            Err(e) => Err(e),
            Ok(end) => Ok((Stsh {}, end)),
        }
    }

    fn parse(mp4: &mut Mp4) -> (r: Result<Stsh, ParseError>) {
        match parse_empty_leaf(mp4, STSH) {
            Ok(v) => Ok(Stsh {}),
            Err(e) => Err(e),
        }
    }
}

/// The `sgpd` atom: no fields of its own; well-formed only as a bare 8-byte
/// frame.
#[derive(Debug, Clone, Copy, PartialEq, Eq)]
pub struct Sgpd {}

impl DeepView for Sgpd {
    type V = Sgpd;

    open spec fn deep_view(&self) -> Sgpd {
        *self
    }
}

impl Parse for Sgpd {
    open spec fn spec_parse(b: Seq<u8>, pos: int) -> Result<(Sgpd, int), ParseError> {
        match spec_empty_leaf(b, pos, SGPD) {
            Err(e) => Err(e),
            Ok(end) => Ok((Sgpd {}, end)),
        }
    }

    fn parse(mp4: &mut Mp4) -> (r: Result<Sgpd, ParseError>) {
        match parse_empty_leaf(mp4, SGPD) {
            Ok(v) => Ok(Sgpd {}),
            Err(e) => Err(e),
        }
    }
}

/// The `sbgp` atom: no fields of its own; well-formed only as a bare 8-byte
/// frame.
#[derive(Debug, Clone, Copy, PartialEq, Eq)]
pub struct Sbgp {}

impl DeepView for Sbgp {
    type V = Sbgp;

    open spec fn deep_view(&self) -> Sbgp {
        *self
    }
}

impl Parse for Sbgp {
    open spec fn spec_parse(b: Seq<u8>, pos: int) -> Result<(Sbgp, int), ParseError> {
        match spec_empty_leaf(b, pos, SBGP) {
            Err(e) => Err(e),
            Ok(end) => Ok((Sbgp {}, end)),
        }
    }

    fn parse(mp4: &mut Mp4) -> (r: Result<Sbgp, ParseError>) {
        match parse_empty_leaf(mp4, SBGP) {
            Ok(v) => Ok(Sbgp {}),
            Err(e) => Err(e),
        }
    }
}


/// The number of samples that a `stts` table's runs collectively describe.
pub open spec fn total_samples(s: Seq<TimeToSampleEntry>) -> int
    decreases s.len(),
{
    if s.len() == 0 {
        0
    } else {
        s[0].sample_count + total_samples(s.skip(1))
    }
}

/// The total duration of every sample a `stts` table describes.
pub open spec fn total_duration(s: Seq<TimeToSampleEntry>) -> int
    decreases s.len(),
{
    if s.len() == 0 {
        0
    } else {
        s[0].sample_count * s[0].sample_duration + total_duration(s.skip(1))
    }
}

/// The cumulative duration of the first `k` samples (in decode order) that a
/// `stts` table describes.
pub open spec fn cum_duration(s: Seq<TimeToSampleEntry>, k: int) -> int
    decreases s.len(),
{
    if s.len() == 0 {
        0
    } else if k <= s[0].sample_count {
        k * s[0].sample_duration
    } else {
        s[0].sample_count * s[0].sample_duration + cum_duration(s.skip(1), k - s[0].sample_count)
    }
}

pub proof fn lemma_total_samples_nonneg(s: Seq<TimeToSampleEntry>)
    ensures
        total_samples(s) >= 0,
    decreases s.len(),
{
    if s.len() > 0 {
        lemma_total_samples_nonneg(s.skip(1));
    }
}

pub proof fn lemma_cum_duration_nonneg(s: Seq<TimeToSampleEntry>, k: int)
    requires
        k >= 0,
    ensures
        cum_duration(s, k) >= 0,
    decreases s.len(),
{
    if s.len() > 0 {
        if k <= s[0].sample_count {
            assert(k * s[0].sample_duration >= 0) by (nonlinear_arith)
                requires
                    k >= 0,
                    s[0].sample_duration >= 0,
            ;
        } else {
            assert(s[0].sample_count * s[0].sample_duration >= 0) by (nonlinear_arith)
                requires
                    s[0].sample_count >= 0,
                    s[0].sample_duration >= 0,
            ;
            lemma_cum_duration_nonneg(s.skip(1), k - s[0].sample_count);
        }
    }
}

/// Cumulative duration never decreases as more samples are taken.
pub proof fn lemma_cum_duration_mono(s: Seq<TimeToSampleEntry>, k1: int, k2: int)
    requires
        0 <= k1 <= k2,
    ensures
        cum_duration(s, k1) <= cum_duration(s, k2),
    decreases s.len(),
{
    if s.len() > 0 {
        let c = s[0].sample_count as int;
        let d = s[0].sample_duration as int;
        if k2 <= c {
            assert(k1 * d <= k2 * d) by (nonlinear_arith)
                requires
                    0 <= k1 <= k2,
                    d >= 0,
            ;
        } else if k1 <= c {
            lemma_cum_duration_nonneg(s.skip(1), k2 - c);
            assert(k1 * d <= c * d) by (nonlinear_arith)
                requires
                    0 <= k1 <= c,
                    d >= 0,
            ;
        } else {
            lemma_cum_duration_mono(s.skip(1), k1 - c, k2 - c);
        }
    }
}

pub proof fn lemma_total_duration_of_no_samples(s: Seq<TimeToSampleEntry>)
    requires
        total_samples(s) == 0,
    ensures
        total_duration(s) == 0,
    decreases s.len(),
{
    if s.len() > 0 {
        lemma_total_samples_nonneg(s.skip(1));
        lemma_total_duration_of_no_samples(s.skip(1));
        assert(s[0].sample_count * s[0].sample_duration == 0) by (nonlinear_arith)
            requires
                s[0].sample_count == 0,
        ;
    }
}

/// Taking every sample takes the whole duration.
pub proof fn lemma_cum_duration_total(s: Seq<TimeToSampleEntry>)
    ensures
        cum_duration(s, total_samples(s)) == total_duration(s),
    decreases s.len(),
{
    if s.len() > 0 {
        let c = s[0].sample_count as int;
        lemma_total_samples_nonneg(s.skip(1));
        if total_samples(s.skip(1)) == 0 {
            lemma_total_duration_of_no_samples(s.skip(1));
        } else {
            lemma_cum_duration_total(s.skip(1));
        }
    }
}

impl Stts {
    /// Looks a media time up in the time-to-sample table: the 1-based index
    /// of the first sample whose cumulative duration exceeds `time`; time 0
    /// names sample 1 unconditionally; a time at or past the total duration
    /// names the final sample.
    pub fn lookup_time(&self, time: u32) -> (r: u32)
        requires
            total_samples(self.time_to_sample_table@) <= u32::MAX,
        ensures
            ({
                let s = self.time_to_sample_table@;
                let total = total_samples(s);
                &&& time == 0 ==> r == 1
                &&& time > 0 ==> {
                    &&& if total == 0 {
                        r == 0
                    } else {
                        &&& 1 <= r <= total
                        &&& cum_duration(s, r - 1) <= time
                        &&& r == total || cum_duration(s, r as int) > time
                    }
                }
            }),
    {
        let ghost s = self.time_to_sample_table@;
        if time == 0 {
            return 1;
        }
        proof {
            lemma_total_samples_nonneg(s);
        }
        proof {
            assert(s.skip(0) =~= s);
        }
        let n64 = time as u64;
        let mut samples: u64 = 0;
        let mut dur: u64 = 0;
        let mut i: usize = 0;
        let len = self.time_to_sample_table.len();
        while i < len
            invariant
                s == self.time_to_sample_table@,
                total_samples(s) <= u32::MAX,
                n64 == time,
                time > 0,
                0 <= i <= s.len(),
                len == s.len(),
                samples + total_samples(s.skip(i as int)) == total_samples(s),
                dur + total_duration(s.skip(i as int)) == total_duration(s),
                dur <= n64,
                samples <= total_samples(s),
                forall|k: int|
                    k >= 0 ==> cum_duration(s, samples + k) == dur + #[trigger] cum_duration(
                        s.skip(i as int),
                        k,
                    ),
            decreases len - i,
        {
            let ghost t = s.skip(i as int);
            let entry = self.time_to_sample_table[i];
            let c = entry.sample_count as u64;
            let d = entry.sample_duration as u64;
            proof {
                assert(t[0] == s[i as int]);
                lemma_total_samples_nonneg(t.skip(1));
                assert(c * d <= 0xFFFF_FFFF_0000_0000u64) by (nonlinear_arith)
                    requires
                        c <= 0xFFFF_FFFFu64,
                        d <= 0xFFFF_FFFFu64,
                ;
            }
            let cap = c * d;
            if d > 0 && dur + cap > n64 {
                let x = n64 - dur;
                let q = x / d;
                let k = q + 1;
                proof {
                    vstd::arithmetic::div_mod::lemma_fundamental_div_mod(x as int, d as int);
                    vstd::arithmetic::div_mod::lemma_mod_division_less_than_divisor(
                        x as int,
                        d as int,
                    );
                    assert(x < d * c) by (nonlinear_arith)
                        requires
                            x < c * d,
                    ;
                    vstd::arithmetic::div_mod::lemma_multiply_divide_lt(x as int, d as int, c as int);
                    assert(k <= c);
                    assert(cum_duration(t, k as int) == k * d);
                    assert(cum_duration(t, k - 1) == (k - 1) * d);
                    assert((k - 1) * d == d * q && k * d == d * q + d) by (nonlinear_arith)
                        requires
                            k == q + 1,
                    ;
                    assert(cum_duration(s, samples + k) == dur + cum_duration(t, k as int));
                    assert(cum_duration(s, samples + (k - 1)) == dur + cum_duration(t, k - 1));
                }
                return (samples + k) as u32;
            }
            proof {
                assert forall|k: int| k >= 0 implies cum_duration(s, (samples + c) + k) == (dur
                    + cap) + #[trigger] cum_duration(s.skip(i + 1), k) by {
                    assert(t.skip(1) =~= s.skip(i + 1));
                    assert(cum_duration(t, c + k) == c * d + cum_duration(t.skip(1), k));
                    assert(cum_duration(s, samples + (c + k)) == dur + cum_duration(t, c + k));
                }
                assert(t.skip(1) =~= s.skip(i + 1));
            }
            proof {
                if d == 0 {
                    assert(cap == 0) by (nonlinear_arith)
                        requires
                            cap == c * d,
                            d == 0,
                    ;
                }
            }
            samples = samples + c;
            dur = dur + cap;
            i = i + 1;
        }
        proof {
            assert(s.skip(s.len() as int) =~= Seq::<TimeToSampleEntry>::empty());
            lemma_cum_duration_total(s);
            if samples >= 1 {
                lemma_cum_duration_mono(s, samples - 1, samples as int);
            }
        }
        samples as u32
    }
}


/// Are a `stsc` table's runs well-formed: chunk numbering starts at 1 and
/// each run's first chunk is strictly greater than the previous run's.
pub open spec fn stsc_wf(s: Seq<SampleToChunkEntry>) -> bool {
    &&& s.len() > 0 ==> s[0].first_chunk >= 1
    &&& forall|j: int|
        0 <= j < s.len() - 1 ==> (#[trigger] s[j].first_chunk) < s[j + 1].first_chunk
}

/// The chunk holding sample `n` (1-based): walk the runs, where run `j`
/// covers the chunks from its first chunk up to the next run's first chunk
/// (the last run unbounded) and each chunk in it holds `samples_per_chunk`
/// samples; the answer is the first chunk at which the running sample total
/// reaches `n`. A table that can never reach `n` — no runs at all, or a
/// trailing run of zero samples per chunk — yields 0.
pub open spec fn spec_lookup_chunk(s: Seq<SampleToChunkEntry>, n: int) -> int
    decreases s.len(),
{
    if s.len() == 0 {
        0
    } else {
        let fc = s[0].first_chunk as int;
        let spc = s[0].samples_per_chunk as int;
        if s.len() == 1 {
            if spc > 0 {
                fc + (n + spc - 1) / spc - 1
            } else {
                0
            }
        } else {
            let cap = (s[1].first_chunk - s[0].first_chunk) * spc;
            if spc > 0 && cap >= n {
                fc + (n + spc - 1) / spc - 1
            } else {
                spec_lookup_chunk(s.skip(1), n - cap)
            }
        }
    }
}

impl Stsc {
    /// Looks a sample number up in the sample-to-chunk table, returning the
    /// chunk that holds it; sample number 0 names chunk 0 directly.
    pub fn lookup_chunk(&self, sample_number: u32) -> (r: u32)
        requires
            stsc_wf(self.sample_to_chunk_table@),
            sample_number > 0 ==> spec_lookup_chunk(
                self.sample_to_chunk_table@,
                sample_number as int,
            ) <= u32::MAX,
        ensures
            sample_number == 0 ==> r == 0,
            sample_number > 0 ==> r as int == spec_lookup_chunk(
                self.sample_to_chunk_table@,
                sample_number as int,
            ),
    {
        let ghost s = self.sample_to_chunk_table@;
        if sample_number == 0 {
            return 0;
        }
        proof {
            assert(s.skip(0) =~= s);
        }
        let len = self.sample_to_chunk_table.len();
        let mut need: u64 = sample_number as u64;
        let mut i: usize = 0;
        while i < len
            invariant
                s == self.sample_to_chunk_table@,
                stsc_wf(s),
                sample_number > 0,
                len == s.len(),
                0 <= i <= len,
                1 <= need <= u32::MAX,
                spec_lookup_chunk(s, sample_number as int) == spec_lookup_chunk(
                    s.skip(i as int),
                    need as int,
                ),
                spec_lookup_chunk(s, sample_number as int) <= u32::MAX,
            decreases len - i,
        {
            let ghost t = s.skip(i as int);
            let entry = self.sample_to_chunk_table[i];
            let fc = entry.first_chunk;
            let spc = entry.samples_per_chunk;
            proof {
                assert(t[0] == s[i as int]);
            }
            if i + 1 < len {
                let next_fc = self.sample_to_chunk_table[i + 1].first_chunk;
                proof {
                    assert(t[1] == s[i as int + 1]);
                    assert(fc < next_fc);
                }
                let chunks = (next_fc - fc) as u64;
                proof {
                    assert(chunks * spc <= 0xFFFF_FFFF_0000_0000u64) by (nonlinear_arith)
                        requires
                            chunks <= 0xFFFF_FFFFu64,
                            spc <= 0xFFFF_FFFFu64,
                    ;
                }
                let cap = chunks * (spc as u64);
                if spc > 0 && cap >= need {
                    let k = (need + spc as u64 - 1) / (spc as u64);
                    proof {
                        assert(need + spc - 1 < (spc as u64) * (chunks + 1)) by (nonlinear_arith)
                            requires
                                need <= chunks * (spc as u64),
                                spc >= 1,
                        ;
                        vstd::arithmetic::div_mod::lemma_multiply_divide_lt(
                            need + spc - 1,
                            spc as int,
                            chunks as int + 1,
                        );
                        assert(k <= chunks);
                        vstd::arithmetic::div_mod::lemma_div_is_ordered(
                            spc as int,
                            need + spc - 1,
                            spc as int,
                        );
                        vstd::arithmetic::div_mod::lemma_div_by_self(spc as int);
                        assert(k >= 1);
                    }
                    let c = fc as u64 + k - 1;
                    return c as u32;
                }
                proof {
                    if spc == 0 {
                        assert(cap == 0) by (nonlinear_arith)
                            requires
                                cap == chunks * (spc as u64),
                                spc == 0,
                        ;
                    }
                    assert(t.skip(1) =~= s.skip(i as int + 1));
                }
                need = need - cap;
                i = i + 1;
            } else {
                if spc > 0 {
                    let k = (need + spc as u64 - 1) / (spc as u64);
                    proof {
                        vstd::arithmetic::div_mod::lemma_div_is_ordered(
                            spc as int,
                            need + spc - 1,
                            spc as int,
                        );
                        vstd::arithmetic::div_mod::lemma_div_by_self(spc as int);
                        assert(k >= 1);
                        assert(t.len() == 1);
                    }
                    let c = fc as u64 + k - 1;
                    return c as u32;
                } else {
                    proof {
                        assert(t.len() == 1);
                    }
                    return 0;
                }
            }
        }
        proof {
            assert(s.skip(s.len() as int) =~= Seq::<SampleToChunkEntry>::empty());
        }
        0
    }
}

impl Stsz {
    /// The size of sample `sample_id` (1-based): the table's fixed size when
    /// `sample_size` is non-zero, else that sample's entry in the per-sample
    /// table.
    pub fn sample_size(&self, sample_id: u32) -> (r: u32)
        requires
            self.sample_size != 0 || (1 <= sample_id && sample_id as int
                <= self.sample_size_table@.len()),
        ensures
            self.sample_size != 0 ==> r == self.sample_size,
            self.sample_size == 0 ==> r == self.sample_size_table@[sample_id - 1],
    {
        if self.sample_size == 0 {
            self.sample_size_table[(sample_id - 1) as usize]
        } else {
            self.sample_size
        }
    }
}

impl Stco {
    /// The absolute byte offset of chunk `chunk_id`: a direct, 0-based index
    /// into the chunk offset table.
    pub fn chunk_offset(&self, chunk_id: u32) -> (r: u32)
        requires
            (chunk_id as int) < self.chunk_offset_table@.len(),
        ensures
            r == self.chunk_offset_table@[chunk_id as int],
    {
        self.chunk_offset_table[chunk_id as usize]
    }
}


/// The number of samples held by the chunks up to and including `c`, under a
/// well-formed sample-to-chunk table: each run's chunks hold its
/// `samples_per_chunk`, the last run without end.
pub open spec fn samples_through(s: Seq<SampleToChunkEntry>, c: int) -> int
    decreases s.len(),
{
    if s.len() == 0 {
        0
    } else {
        let fc = s[0].first_chunk as int;
        let spc = s[0].samples_per_chunk as int;
        if c < fc {
            0
        } else if s.len() == 1 || c < s[1].first_chunk {
            (c - fc + 1) * spc
        } else {
            (s[1].first_chunk - fc) * spc + samples_through(s.skip(1), c)
        }
    }
}

/// What the sample-to-chunk walk names: whenever it finds a chunk at all, it
/// is the first chunk whose running sample total reaches `n` — the total
/// through it reaches `n`, the total through its predecessor does not.
pub proof fn lemma_lookup_chunk_first_reaching(s: Seq<SampleToChunkEntry>, n: int)
    requires
        stsc_wf(s),
        n >= 1,
        spec_lookup_chunk(s, n) != 0,
    ensures
        ({
            let r = spec_lookup_chunk(s, n);
            &&& s.len() > 0
            &&& r >= s[0].first_chunk
            &&& samples_through(s, r) >= n
            &&& samples_through(s, r - 1) < n
        }),
    decreases s.len(),
{
    let r = spec_lookup_chunk(s, n);
    let fc = s[0].first_chunk as int;
    let spc = s[0].samples_per_chunk as int;
    let hit_here = s.len() == 1 || (spc > 0 && (s[1].first_chunk - fc) * spc >= n);
    if hit_here {
        let q = (n + spc - 1) / spc;
        vstd::arithmetic::div_mod::lemma_fundamental_div_mod(n + spc - 1, spc);
        vstd::arithmetic::div_mod::lemma_mod_division_less_than_divisor(n + spc - 1, spc);
        vstd::arithmetic::div_mod::lemma_div_is_ordered(spc, n + spc - 1, spc);
        vstd::arithmetic::div_mod::lemma_div_by_self(spc);
        assert(q >= 1);
        assert(r == fc + q - 1);
        assert(spc * (q - 1) == spc * q - spc) by (nonlinear_arith);
        assert((r - fc + 1) * spc == spc * q) by (nonlinear_arith)
            requires
                r - fc + 1 == q,
        ;
        if s.len() > 1 {
            let chunks = s[1].first_chunk - fc;
            assert(n + spc - 1 < spc * (chunks + 1)) by (nonlinear_arith)
                requires
                    n <= chunks * spc,
                    spc >= 1,
            ;
            vstd::arithmetic::div_mod::lemma_multiply_divide_lt(n + spc - 1, spc, chunks + 1);
            assert(r < s[1].first_chunk);
        }
        assert(samples_through(s, r) == (r - fc + 1) * spc);
        if q == 1 {
            assert(r - 1 < fc);
        } else {
            assert(samples_through(s, r - 1) == (r - 1 - fc + 1) * spc);
            assert((r - 1 - fc + 1) * spc == spc * (q - 1)) by (nonlinear_arith)
                requires
                    r - 1 - fc + 1 == q - 1,
            ;
        }
    } else {
        let cap = (s[1].first_chunk - fc) * spc;
        if spc == 0 {
            assert(cap == 0) by (nonlinear_arith)
                requires
                    cap == (s[1].first_chunk - fc) * spc,
                    spc == 0,
            ;
        } else {
            assert(cap >= 0) by (nonlinear_arith)
                requires
                    cap == (s[1].first_chunk - fc) * spc,
                    s[1].first_chunk - fc >= 0,
                    spc >= 0,
            ;
        }
        let t = s.skip(1);
        assert(forall|j: int| 0 <= j < t.len() ==> #[trigger] t[j] == s[j + 1]);
        assert(stsc_wf(t));
        lemma_lookup_chunk_first_reaching(t, n - cap);
        assert(r == spec_lookup_chunk(t, n - cap));
        assert(r >= t[0].first_chunk);
        assert(samples_through(s, r) == cap + samples_through(t, r));
        if r - 1 < s[1].first_chunk {
            assert(r == s[1].first_chunk);
            assert(samples_through(s, r - 1) == (r - 1 - fc + 1) * spc);
            assert((r - 1 - fc + 1) * spc == cap) by (nonlinear_arith)
                requires
                    r - 1 - fc + 1 == s[1].first_chunk - fc,
                    cap == (s[1].first_chunk - fc) * spc,
            ;
        } else {
            assert(samples_through(s, r - 1) == cap + samples_through(t, r - 1));
        }
    }
}

} // verus!
