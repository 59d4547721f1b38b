use vstd::prelude::*;

use crate::error::ParseError;
use crate::reader::{be_i16_at, be_u16_at, be_u32_at};
use crate::{
    frame_peek_len, parse_elems_count, parse_elems_until, read_fill, spec_fill,
    spec_frame_peek_len, spec_parse_elems_count, spec_parse_elems_until, spec_peek_header, Mp4,
    Parse, PeekLen,
};

use crate::reference::Reference;

use super::header::{AVCC, CLAP, COLR, ESDS, FIEL, GAMA, MJHT, MJQT, PASP, VIDE};
use super::{parse_empty_leaf, spec_empty_leaf};

verus! {

/// The frame discipline of a sample description table: a plain 4-byte length
/// field (no type tag follows; the data format is an ordinary field) whose
/// extent must lie within the source.
pub open spec fn spec_mdt_frame(b: Seq<u8>, pos: int) -> Result<int, ParseError> {
    if pos + 4 > b.len() {
        Err(ParseError::Truncated)
    } else {
        let l = be_u32_at(b, pos);
        if pos + l > b.len() {
            Err(ParseError::Truncated)
        } else {
            Ok(l)
        }
    }
}

/// The shape every sample description table shares: its data format tag, a
/// reserved area, its data reference index, and whatever media-specific bytes
/// fill the table to its declared end.
#[derive(Debug, Clone, PartialEq, Eq)]
pub struct BaseSampleDescriptionTable {
    pub data_format: u32,
    pub reserved: Vec<u8>,
    pub data_reference_index: u16,
    pub rest: Vec<u8>,
}

/// The ghost content of a `BaseSampleDescriptionTable`.
pub struct SpecBaseSampleDescriptionTable {
    pub data_format: u32,
    pub reserved: Seq<u8>,
    pub data_reference_index: u16,
    pub rest: Seq<u8>,
}

impl DeepView for BaseSampleDescriptionTable {
    type V = SpecBaseSampleDescriptionTable;

    open spec fn deep_view(&self) -> SpecBaseSampleDescriptionTable {
        SpecBaseSampleDescriptionTable {
            data_format: self.data_format,
            reserved: self.reserved@,
            data_reference_index: self.data_reference_index,
            rest: self.rest@,
        }
    }
}

impl Parse for BaseSampleDescriptionTable {
    open spec fn spec_parse(b: Seq<u8>, pos: int) -> Result<(SpecBaseSampleDescriptionTable, int), ParseError> {
        match spec_mdt_frame(b, pos) {
            Err(e) => Err(e),
            Ok(l) => {
                if pos + 16 > b.len() {
                    Err(ParseError::Truncated)
                } else {
                    let tail = spec_fill(b, pos + 16, pos + l);
                    if tail.1 != pos + l {
                        Err(ParseError::FramingViolation)
                    } else {
                        Ok((SpecBaseSampleDescriptionTable { data_format: be_u32_at(b, pos + 4) as u32, reserved: b.subrange(pos + 8, pos + 8 + 6), data_reference_index: be_u16_at(b, pos + 14) as u16, rest: tail.0 }, pos + l))
                    }
                }
            },
        }
    }

    fn parse(mp4: &mut Mp4) -> (r: Result<BaseSampleDescriptionTable, ParseError>) {
        let start = mp4.position();
        let l0 = match mp4.reader.read_u32() {
            Ok(v) => v,
            Err(e) => {
                return Err(e);
            },
        };
        let l = l0 as usize;
        let avail = mp4.reader.source_len() - start;
        if l > avail {
            return Err(ParseError::Truncated);
        }
        let end = start + l;
        let data_format = match mp4.reader.read_u32() {
            Ok(v) => v,
            Err(e) => {
                return Err(e);
            },
        };
        let reserved = match mp4.reader.read_bytes_dyn(6) {
            Ok(v) => v,
            Err(e) => {
                return Err(e);
            },
        };
        let data_reference_index = match mp4.reader.read_u16() {
            Ok(v) => v,
            Err(e) => {
                return Err(e);
            },
        };
        let rest = read_fill(mp4, end);
        if mp4.position() != end {
            return Err(ParseError::FramingViolation);
        }
        Ok(BaseSampleDescriptionTable { data_format, reserved, data_reference_index, rest })
    }
}

impl PeekLen for BaseSampleDescriptionTable {
    open spec fn spec_peek_len(b: Seq<u8>, pos: int) -> Result<usize, ParseError> {
        spec_frame_peek_len(b, pos)
    }

    fn peek_len(mp4: &mut Mp4) -> (r: Result<usize, ParseError>) {
        frame_peek_len(mp4)
    }
}

/// One sequence parameter set carried by an `avcC` box: a 2-byte length
/// prefix and that many raw NAL unit bytes, handed on to the codec bitstream
/// consumer.
#[derive(Debug, Clone, PartialEq, Eq)]
pub struct SequenceParameterSet {
    pub len: u16,
    pub nal_unit: Vec<u8>,
}

/// The ghost content of a `SequenceParameterSet`.
pub struct SpecSequenceParameterSet {
    pub len: u16,
    pub nal_unit: Seq<u8>,
}

impl DeepView for SequenceParameterSet {
    type V = SpecSequenceParameterSet;

    open spec fn deep_view(&self) -> SpecSequenceParameterSet {
        SpecSequenceParameterSet { len: self.len, nal_unit: self.nal_unit@ }
    }
}

impl Parse for SequenceParameterSet {
    open spec fn spec_parse(b: Seq<u8>, pos: int) -> Result<(SpecSequenceParameterSet, int), ParseError> {
        if pos + 2 > b.len() {
            Err(ParseError::Truncated)
        } else {
            let l = be_u16_at(b, pos);
            if pos + 2 + l > b.len() {
                Err(ParseError::Truncated)
            } else {
                Ok(
                    (
                        SpecSequenceParameterSet { len: l as u16, nal_unit: b.subrange(pos + 2, pos + 2 + l) },
                        pos + 2 + l,
                    ),
                )
            }
        }
    }

    fn parse(mp4: &mut Mp4) -> (r: Result<SequenceParameterSet, ParseError>) {
        let len = match mp4.reader.read_u16() {
            Ok(v) => v,
            Err(e) => {
                return Err(e);
            },
        };
        let nal_unit = match mp4.reader.read_bytes_dyn(len as usize) {
            Ok(v) => v,
            Err(e) => {
                return Err(e);
            },
        };
        Ok(SequenceParameterSet { len, nal_unit })
    }
}

/// One picture parameter set carried by an `avcC` box: a 2-byte length
/// prefix and that many raw NAL unit bytes, handed on to the codec bitstream
/// consumer.
#[derive(Debug, Clone, PartialEq, Eq)]
pub struct PictureParameterSet {
    pub len: u16,
    pub nal_unit: Vec<u8>,
}

/// The ghost content of a `PictureParameterSet`.
pub struct SpecPictureParameterSet {
    pub len: u16,
    pub nal_unit: Seq<u8>,
}

impl DeepView for PictureParameterSet {
    type V = SpecPictureParameterSet;

    open spec fn deep_view(&self) -> SpecPictureParameterSet {
        SpecPictureParameterSet { len: self.len, nal_unit: self.nal_unit@ }
    }
}

impl Parse for PictureParameterSet {
    open spec fn spec_parse(b: Seq<u8>, pos: int) -> Result<(SpecPictureParameterSet, int), ParseError> {
        if pos + 2 > b.len() {
            Err(ParseError::Truncated)
        } else {
            let l = be_u16_at(b, pos);
            if pos + 2 + l > b.len() {
                Err(ParseError::Truncated)
            } else {
                Ok(
                    (
                        SpecPictureParameterSet { len: l as u16, nal_unit: b.subrange(pos + 2, pos + 2 + l) },
                        pos + 2 + l,
                    ),
                )
            }
        }
    }

    fn parse(mp4: &mut Mp4) -> (r: Result<PictureParameterSet, ParseError>) {
        let len = match mp4.reader.read_u16() {
            Ok(v) => v,
            Err(e) => {
                return Err(e);
            },
        };
        let nal_unit = match mp4.reader.read_bytes_dyn(len as usize) {
            Ok(v) => v,
            Err(e) => {
                return Err(e);
            },
        };
        Ok(PictureParameterSet { len, nal_unit })
    }
}

/// The trailing extension of an `avcC` box present for the high profiles:
/// chroma format, bit depths, and further sequence parameter sets.
#[derive(Debug, Clone, PartialEq, Eq)]
pub struct AvcCExtension {
    pub chroma_format: u8,
    pub bit_depth_luma_minus8: u8,
    pub bit_depth_chroma_minus8: u8,
    pub sequence_parameter_set_extension: Vec<SequenceParameterSet>,
}

/// The ghost content of an `AvcCExtension`.
pub struct SpecAvcCExtension {
    pub chroma_format: u8,
    pub bit_depth_luma_minus8: u8,
    pub bit_depth_chroma_minus8: u8,
    pub sequence_parameter_set_extension: Seq<SpecSequenceParameterSet>,
}

impl DeepView for AvcCExtension {
    type V = SpecAvcCExtension;

    open spec fn deep_view(&self) -> SpecAvcCExtension {
        SpecAvcCExtension {
            chroma_format: self.chroma_format,
            bit_depth_luma_minus8: self.bit_depth_luma_minus8,
            bit_depth_chroma_minus8: self.bit_depth_chroma_minus8,
            sequence_parameter_set_extension: self.sequence_parameter_set_extension.deep_view(),
        }
    }
}

impl Parse for AvcCExtension {
    open spec fn spec_parse(b: Seq<u8>, pos: int) -> Result<(SpecAvcCExtension, int), ParseError> {
        if pos + 4 > b.len() {
            Err(ParseError::Truncated)
        } else {
            match spec_parse_elems_count::<SequenceParameterSet>(b, pos + 4, b[pos + 3] as int) {
                Err(e) => Err(e),
                Ok(rs) => Ok(
                    (
                        SpecAvcCExtension {
                            chroma_format: b[pos] & 0x03,
                            bit_depth_luma_minus8: b[pos + 1] & 0x07,
                            bit_depth_chroma_minus8: b[pos + 2] & 0x07,
                            sequence_parameter_set_extension: rs.0,
                        },
                        rs.1,
                    ),
                ),
            }
        }
    }

    fn parse(mp4: &mut Mp4) -> (r: Result<AvcCExtension, ParseError>) {
        let b0 = match mp4.reader.read_u8() {
            Ok(v) => v,
            Err(e) => {
                return Err(e);
            },
        };
        let b1 = match mp4.reader.read_u8() {
            Ok(v) => v,
            Err(e) => {
                return Err(e);
            },
        };
        let b2 = match mp4.reader.read_u8() {
            Ok(v) => v,
            Err(e) => {
                return Err(e);
            },
        };
        let n = match mp4.reader.read_u8() {
            Ok(v) => v,
            Err(e) => {
                return Err(e);
            },
        };
        let sequence_parameter_set_extension = match parse_elems_count::<SequenceParameterSet>(
            mp4,
            n as usize,
        ) {
            Ok(v) => v,
            Err(e) => {
                return Err(e);
            },
        };
        Ok(
            AvcCExtension {
                chroma_format: b0 & 0x03,
                bit_depth_luma_minus8: b1 & 0x07,
                bit_depth_chroma_minus8: b2 & 0x07,
                sequence_parameter_set_extension,
            },
        )
    }
}

/// The `avcC` video configuration box: profile and level indications, the
/// NAL length-field width, and the embedded sequence and picture parameter
/// sets that the codec bitstream consumer takes over.
#[derive(Debug, Clone, PartialEq, Eq)]
pub struct AvcC {
    pub configuration_version: u8,
    pub avc_profile_indication: u8,
    pub profile_compatibility: u8,
    pub avc_level_indication: u8,
    pub length_size_minus_one: u8,
    pub sequence_parameter_sets: Vec<SequenceParameterSet>,
    pub picture_parameter_sets: Vec<PictureParameterSet>,
    pub extension: Option<AvcCExtension>,
}

/// The ghost content of an `AvcC`.
pub struct SpecAvcC {
    pub configuration_version: u8,
    pub avc_profile_indication: u8,
    pub profile_compatibility: u8,
    pub avc_level_indication: u8,
    pub length_size_minus_one: u8,
    pub sequence_parameter_sets: Seq<SpecSequenceParameterSet>,
    pub picture_parameter_sets: Seq<SpecPictureParameterSet>,
    pub extension: Option<SpecAvcCExtension>,
}

impl DeepView for AvcC {
    type V = SpecAvcC;

    open spec fn deep_view(&self) -> SpecAvcC {
        SpecAvcC {
            configuration_version: self.configuration_version,
            avc_profile_indication: self.avc_profile_indication,
            profile_compatibility: self.profile_compatibility,
            avc_level_indication: self.avc_level_indication,
            length_size_minus_one: self.length_size_minus_one,
            sequence_parameter_sets: self.sequence_parameter_sets.deep_view(),
            picture_parameter_sets: self.picture_parameter_sets.deep_view(),
            extension: self.extension.deep_view(),
        }
    }
}

/// Does this profile compatibility byte signal the trailing extension?
pub open spec fn spec_has_avcc_extension(compat: u8) -> bool {
    compat == 100 || compat == 110 || compat == 122 || compat == 144
}

impl Parse for AvcC {
    open spec fn spec_parse(b: Seq<u8>, pos: int) -> Result<(SpecAvcC, int), ParseError> {
        if pos + 4 > b.len() {
            Err(ParseError::Truncated)
        } else {
            let l = be_u32_at(b, pos);
            if pos + 8 > b.len() {
                Err(ParseError::Truncated)
            } else if be_u32_at(b, pos + 4) != AVCC as int {
                Err(ParseError::HeaderMismatch)
            } else if pos + l > b.len() {
                Err(ParseError::Truncated)
            } else if pos + 14 > b.len() {
                Err(ParseError::Truncated)
            } else {
                match spec_parse_elems_count::<SequenceParameterSet>(
                    b,
                    pos + 14,
                    (b[pos + 13] & 0x1F) as int,
                ) {
                    Err(e) => Err(e),
                    Ok(sps) => {
                        if sps.1 + 1 > b.len() {
                            Err(ParseError::Truncated)
                        } else {
                            match spec_parse_elems_count::<PictureParameterSet>(
                                b,
                                sps.1 + 1,
                                b[sps.1] as int,
                            ) {
                                Err(e) => Err(e),
                                Ok(pps) => {
                                    if spec_has_avcc_extension(b[pos + 10]) {
                                        match <AvcCExtension as Parse>::spec_parse(b, pps.1) {
                                            Err(e) => Err(e),
                                            Ok(ext) => {
                                                if ext.1 != pos + l {
                                                    Err(ParseError::FramingViolation)
                                                } else {
                                                    Ok(
                                                        (
                                                            SpecAvcC {
                                                                configuration_version: b[pos + 8],
                                                                avc_profile_indication: b[pos + 9],
                                                                profile_compatibility: b[pos + 10],
                                                                avc_level_indication: b[pos + 11],
                                                                length_size_minus_one: b[pos + 12]
                                                                    & 0x03,
                                                                sequence_parameter_sets: sps.0,
                                                                picture_parameter_sets: pps.0,
                                                                extension: Some(ext.0),
                                                            },
                                                            ext.1,
                                                        ),
                                                    )
                                                }
                                            },
                                        }
                                    } else {
                                        if pps.1 != pos + l {
                                            Err(ParseError::FramingViolation)
                                        } else {
                                            Ok(
                                                (
                                                    SpecAvcC {
                                                        configuration_version: b[pos + 8],
                                                        avc_profile_indication: b[pos + 9],
                                                        profile_compatibility: b[pos + 10],
                                                        avc_level_indication: b[pos + 11],
                                                        length_size_minus_one: b[pos + 12] & 0x03,
                                                        sequence_parameter_sets: sps.0,
                                                        picture_parameter_sets: pps.0,
                                                        extension: None,
                                                    },
                                                    pps.1,
                                                ),
                                            )
                                        }
                                    }
                                },
                            }
                        }
                    },
                }
            }
        }
    }

    fn parse(mp4: &mut Mp4) -> (r: Result<AvcC, ParseError>) {
        let start = mp4.position();
        let l0 = match mp4.reader.read_u32() {
            Ok(v) => v,
            Err(e) => {
                return Err(e);
            },
        };
        match mp4.expect_header(super::header::Header(AVCC)) {
            Ok(v) => {},
            Err(e) => {
                return Err(e);
            },
        }
        let l = l0 as usize;
        let avail = mp4.reader.source_len() - start;
        if l > avail {
            return Err(ParseError::Truncated);
        }
        let configuration_version = match mp4.reader.read_u8() {
            Ok(v) => v,
            Err(e) => {
                return Err(e);
            },
        };
        let avc_profile_indication = match mp4.reader.read_u8() {
            Ok(v) => v,
            Err(e) => {
                return Err(e);
            },
        };
        let profile_compatibility = match mp4.reader.read_u8() {
            Ok(v) => v,
            Err(e) => {
                return Err(e);
            },
        };
        let avc_level_indication = match mp4.reader.read_u8() {
            Ok(v) => v,
            Err(e) => {
                return Err(e);
            },
        };
        let b12 = match mp4.reader.read_u8() {
            Ok(v) => v,
            Err(e) => {
                return Err(e);
            },
        };
        let b13 = match mp4.reader.read_u8() {
            Ok(v) => v,
            Err(e) => {
                return Err(e);
            },
        };
        let length_size_minus_one = b12 & 0x03;
        let num_sps = b13 & 0x1F;
        let sequence_parameter_sets = match parse_elems_count::<SequenceParameterSet>(
            mp4,
            num_sps as usize,
        ) {
            Ok(v) => v,
            Err(e) => {
                return Err(e);
            },
        };
        let num_pps = match mp4.reader.read_u8() {
            Ok(v) => v,
            Err(e) => {
                return Err(e);
            },
        };
        let picture_parameter_sets = match parse_elems_count::<PictureParameterSet>(
            mp4,
            num_pps as usize,
        ) {
            Ok(v) => v,
            Err(e) => {
                return Err(e);
            },
        };
        let extension: Option<AvcCExtension>;
        if profile_compatibility == 100 || profile_compatibility == 110 || profile_compatibility
            == 122 || profile_compatibility == 144 {
            extension = match <AvcCExtension as Parse>::parse(mp4) {
                Ok(v) => Some(v),
                Err(e) => {
                    return Err(e);
                },
            };
        } else {
            extension = None;
        }
        if mp4.position() != start + l {
            return Err(ParseError::FramingViolation);
        }
        Ok(
            AvcC {
                configuration_version,
                avc_profile_indication,
                profile_compatibility,
                avc_level_indication,
                length_size_minus_one,
                sequence_parameter_sets,
                picture_parameter_sets,
                extension,
            },
        )
    }
}

/// One extension box inside a video sample description: only `avcC` is
/// interpreted; any other tag is reported as an unknown variant with its
/// bytes, never silently defaulted.
#[derive(Debug, Clone, PartialEq, Eq)]
pub enum VideoSampleExtension {
    Gama,
    Fiel,
    Mjqt,
    Mjht,
    Esds,
    AvcC(AvcC),
    Pasp,
    Colr,
    Clap,
}

/// The ghost content of a `VideoSampleExtension`.
pub enum SpecVideoSampleExtension {
    Gama,
    Fiel,
    Mjqt,
    Mjht,
    Esds,
    AvcC(SpecAvcC),
    Pasp,
    Colr,
    Clap,
}

impl DeepView for VideoSampleExtension {
    type V = SpecVideoSampleExtension;

    open spec fn deep_view(&self) -> SpecVideoSampleExtension {
        match self {
            VideoSampleExtension::Gama => SpecVideoSampleExtension::Gama,
            VideoSampleExtension::Fiel => SpecVideoSampleExtension::Fiel,
            VideoSampleExtension::Mjqt => SpecVideoSampleExtension::Mjqt,
            VideoSampleExtension::Mjht => SpecVideoSampleExtension::Mjht,
            VideoSampleExtension::Esds => SpecVideoSampleExtension::Esds,
            VideoSampleExtension::AvcC(a) => SpecVideoSampleExtension::AvcC(a.deep_view()),
            VideoSampleExtension::Pasp => SpecVideoSampleExtension::Pasp,
            VideoSampleExtension::Colr => SpecVideoSampleExtension::Colr,
            VideoSampleExtension::Clap => SpecVideoSampleExtension::Clap,
        }
    }
}

impl Parse for VideoSampleExtension {
    open spec fn spec_parse(b: Seq<u8>, pos: int) -> Result<
        (SpecVideoSampleExtension, int),
        ParseError,
    > {
        match spec_peek_header(b, pos) {
            Err(e) => Err(e),
            Ok(h) => {
                if h.0 == AVCC {
                    match <AvcC as Parse>::spec_parse(b, pos) {
                        Err(e) => Err(e),
                        Ok(rs) => Ok((SpecVideoSampleExtension::AvcC(rs.0), rs.1)),
                    }
                } else {
                    Err(ParseError::UnknownVariant(h.0))
                }
            },
        }
    }

    fn parse(mp4: &mut Mp4) -> (r: Result<VideoSampleExtension, ParseError>) {
        let h = match mp4.peek_header() {
            Ok(v) => v,
            Err(e) => {
                return Err(e);
            },
        };
        if h.0 == AVCC {
            match <AvcC as Parse>::parse(mp4) {
                Ok(v) => Ok(VideoSampleExtension::AvcC(v)),
                Err(e) => Err(e),
            }
        } else {
            Err(ParseError::UnknownVariant(h.0))
        }
    }
}

/// A video sample description table: the common head, the video-specific
/// fixed fields, and the extension boxes filling the table to its declared
/// end.
#[derive(Debug, Clone, PartialEq, Eq)]
pub struct SampleVideoDescriptionTable {
    pub data_format: u32,
    pub reserved: Vec<u8>,
    pub data_reference_index: u16,
    pub version: u16,
    pub revision_level: u16,
    pub vendor: u32,
    pub temporal_quality: u32,
    pub spatial_quality: u32,
    pub width: u16,
    pub height: u16,
    pub horizontal_resolution: u32,
    pub vertical_resolution: u32,
    pub data_size: u32,
    pub frame_count: u16,
    pub compressor_name: Vec<u8>,
    pub depth: u16,
    pub color_table_id: i16,
    pub extensions: Vec<VideoSampleExtension>,
}

/// The ghost content of a `SampleVideoDescriptionTable`.
pub struct SpecSampleVideoDescriptionTable {
    pub data_format: u32,
    pub reserved: Seq<u8>,
    pub data_reference_index: u16,
    pub version: u16,
    pub revision_level: u16,
    pub vendor: u32,
    pub temporal_quality: u32,
    pub spatial_quality: u32,
    pub width: u16,
    pub height: u16,
    pub horizontal_resolution: u32,
    pub vertical_resolution: u32,
    pub data_size: u32,
    pub frame_count: u16,
    pub compressor_name: Seq<u8>,
    pub depth: u16,
    pub color_table_id: i16,
    pub extensions: Seq<SpecVideoSampleExtension>,
}

impl DeepView for SampleVideoDescriptionTable {
    type V = SpecSampleVideoDescriptionTable;

    open spec fn deep_view(&self) -> SpecSampleVideoDescriptionTable {
        SpecSampleVideoDescriptionTable {
            data_format: self.data_format,
            reserved: self.reserved@,
            data_reference_index: self.data_reference_index,
            version: self.version,
            revision_level: self.revision_level,
            vendor: self.vendor,
            temporal_quality: self.temporal_quality,
            spatial_quality: self.spatial_quality,
            width: self.width,
            height: self.height,
            horizontal_resolution: self.horizontal_resolution,
            vertical_resolution: self.vertical_resolution,
            data_size: self.data_size,
            frame_count: self.frame_count,
            compressor_name: self.compressor_name@,
            depth: self.depth,
            color_table_id: self.color_table_id,
            extensions: self.extensions.deep_view(),
        }
    }
}

impl Parse for SampleVideoDescriptionTable {
    open spec fn spec_parse(b: Seq<u8>, pos: int) -> Result<(SpecSampleVideoDescriptionTable, int), ParseError> {
        match spec_mdt_frame(b, pos) {
            Err(e) => Err(e),
            Ok(l) => {
                if pos + 86 > b.len() {
                    Err(ParseError::Truncated)
                } else {
                    match spec_parse_elems_until::<VideoSampleExtension>(b, pos + 86, pos + l) {
                        Err(e) => Err(e),
                        Ok(rs) => {
                            if rs.1 != pos + l {
                                Err(ParseError::FramingViolation)
                            } else {
                                Ok((SpecSampleVideoDescriptionTable { data_format: be_u32_at(b, pos + 4) as u32, reserved: b.subrange(pos + 8, pos + 8 + 6), data_reference_index: be_u16_at(b, pos + 14) as u16, version: be_u16_at(b, pos + 16) as u16, revision_level: be_u16_at(b, pos + 18) as u16, vendor: be_u32_at(b, pos + 20) as u32, temporal_quality: be_u32_at(b, pos + 24) as u32, spatial_quality: be_u32_at(b, pos + 28) as u32, width: be_u16_at(b, pos + 32) as u16, height: be_u16_at(b, pos + 34) as u16, horizontal_resolution: be_u32_at(b, pos + 36) as u32, vertical_resolution: be_u32_at(b, pos + 40) as u32, data_size: be_u32_at(b, pos + 44) as u32, frame_count: be_u16_at(b, pos + 48) as u16, compressor_name: b.subrange(pos + 50, pos + 50 + 32), depth: be_u16_at(b, pos + 82) as u16, color_table_id: be_i16_at(b, pos + 84) as i16, extensions: rs.0 }, pos + l))
                            }
                        },
                    }
                }
            },
        }
    }

    fn parse(mp4: &mut Mp4) -> (r: Result<SampleVideoDescriptionTable, ParseError>) {
        let start = mp4.position();
        let l0 = match mp4.reader.read_u32() {
            Ok(v) => v,
            Err(e) => {
                return Err(e);
            },
        };
        let l = l0 as usize;
        let avail = mp4.reader.source_len() - start;
        if l > avail {
            return Err(ParseError::Truncated);
        }
        let end = start + l;
        let data_format = match mp4.reader.read_u32() {
            Ok(v) => v,
            Err(e) => {
                return Err(e);
            },
        };
        let reserved = match mp4.reader.read_bytes_dyn(6) {
            Ok(v) => v,
            Err(e) => {
                return Err(e);
            },
        };
        let data_reference_index = match mp4.reader.read_u16() {
            Ok(v) => v,
            Err(e) => {
                return Err(e);
            },
        };
        let version = match mp4.reader.read_u16() {
            Ok(v) => v,
            Err(e) => {
                return Err(e);
            },
        };
        let revision_level = match mp4.reader.read_u16() {
            Ok(v) => v,
            Err(e) => {
                return Err(e);
            },
        };
        let vendor = match mp4.reader.read_u32() {
            Ok(v) => v,
            Err(e) => {
                return Err(e);
            },
        };
        let temporal_quality = match mp4.reader.read_u32() {
            Ok(v) => v,
            Err(e) => {
                return Err(e);
            },
        };
        let spatial_quality = match mp4.reader.read_u32() {
            Ok(v) => v,
            Err(e) => {
                return Err(e);
            },
        };
        let width = match mp4.reader.read_u16() {
            Ok(v) => v,
            Err(e) => {
                return Err(e);
            },
        };
        let height = match mp4.reader.read_u16() {
            Ok(v) => v,
            Err(e) => {
                return Err(e);
            },
        };
        let horizontal_resolution = match mp4.reader.read_u32() {
            Ok(v) => v,
            Err(e) => {
                return Err(e);
            },
        };
        let vertical_resolution = match mp4.reader.read_u32() {
            Ok(v) => v,
            Err(e) => {
                return Err(e);
            },
        };
        let data_size = match mp4.reader.read_u32() {
            Ok(v) => v,
            Err(e) => {
                return Err(e);
            },
        };
        let frame_count = match mp4.reader.read_u16() {
            Ok(v) => v,
            Err(e) => {
                return Err(e);
            },
        };
        let compressor_name = match mp4.reader.read_bytes_dyn(32) {
            Ok(v) => v,
            Err(e) => {
                return Err(e);
            },
        };
        let depth = match mp4.reader.read_u16() {
            Ok(v) => v,
            Err(e) => {
                return Err(e);
            },
        };
        let color_table_id = match mp4.reader.read_i16() {
            Ok(v) => v,
            Err(e) => {
                return Err(e);
            },
        };
        let extensions = match parse_elems_until::<VideoSampleExtension>(mp4, end) {
            Ok(v) => v,
            Err(e) => {
                return Err(e);
            },
        };
        if mp4.position() != end {
            return Err(ParseError::FramingViolation);
        }
        Ok(SampleVideoDescriptionTable { data_format, reserved, data_reference_index, version, revision_level, vendor, temporal_quality, spatial_quality, width, height, horizontal_resolution, vertical_resolution, data_size, frame_count, compressor_name, depth, color_table_id, extensions })
    }
}

/// A version-0 sound sample description table.
#[derive(Debug, Clone, PartialEq, Eq)]
pub struct SampleSoundVersion0DescriptionTable {
    pub data_format: u32,
    pub reserved: Vec<u8>,
    pub data_reference_index: u16,
    pub version: u16,
    pub revision_level: u16,
    pub vendor: u32,
    pub number_of_channels: u16,
    pub sample_size: u16,
    pub compression_id: u16,
    pub packet_size: u16,
    pub sample_rate: u32,
}

/// The ghost content of a `SampleSoundVersion0DescriptionTable`.
pub struct SpecSampleSoundVersion0DescriptionTable {
    pub data_format: u32,
    pub reserved: Seq<u8>,
    pub data_reference_index: u16,
    pub version: u16,
    pub revision_level: u16,
    pub vendor: u32,
    pub number_of_channels: u16,
    pub sample_size: u16,
    pub compression_id: u16,
    pub packet_size: u16,
    pub sample_rate: u32,
}

impl DeepView for SampleSoundVersion0DescriptionTable {
    type V = SpecSampleSoundVersion0DescriptionTable;

    open spec fn deep_view(&self) -> SpecSampleSoundVersion0DescriptionTable {
        SpecSampleSoundVersion0DescriptionTable {
            data_format: self.data_format,
            reserved: self.reserved@,
            data_reference_index: self.data_reference_index,
            version: self.version,
            revision_level: self.revision_level,
            vendor: self.vendor,
            number_of_channels: self.number_of_channels,
            sample_size: self.sample_size,
            compression_id: self.compression_id,
            packet_size: self.packet_size,
            sample_rate: self.sample_rate,
        }
    }
}

impl Parse for SampleSoundVersion0DescriptionTable {
    open spec fn spec_parse(b: Seq<u8>, pos: int) -> Result<(SpecSampleSoundVersion0DescriptionTable, int), ParseError> {
        match spec_mdt_frame(b, pos) {
            Err(e) => Err(e),
            Ok(l) => {
                                if pos + 36 > b.len() {
                    Err(ParseError::Truncated)
                } else if l != 36 {
                    Err(ParseError::FramingViolation)
                } else {
                    Ok((SpecSampleSoundVersion0DescriptionTable { data_format: be_u32_at(b, pos + 4) as u32, reserved: b.subrange(pos + 8, pos + 8 + 6), data_reference_index: be_u16_at(b, pos + 14) as u16, version: be_u16_at(b, pos + 16) as u16, revision_level: be_u16_at(b, pos + 18) as u16, vendor: be_u32_at(b, pos + 20) as u32, number_of_channels: be_u16_at(b, pos + 24) as u16, sample_size: be_u16_at(b, pos + 26) as u16, compression_id: be_u16_at(b, pos + 28) as u16, packet_size: be_u16_at(b, pos + 30) as u16, sample_rate: be_u32_at(b, pos + 32) as u32 }, pos + 36))
                }
            },
        }
    }

    fn parse(mp4: &mut Mp4) -> (r: Result<SampleSoundVersion0DescriptionTable, ParseError>) {
        let start = mp4.position();
        let l0 = match mp4.reader.read_u32() {
            Ok(v) => v,
            Err(e) => {
                return Err(e);
            },
        };
        let l = l0 as usize;
        let avail = mp4.reader.source_len() - start;
        if l > avail {
            return Err(ParseError::Truncated);
        }
        let end = start + l;
        let data_format = match mp4.reader.read_u32() {
            Ok(v) => v,
            Err(e) => {
                return Err(e);
            },
        };
        let reserved = match mp4.reader.read_bytes_dyn(6) {
            Ok(v) => v,
            Err(e) => {
                return Err(e);
            },
        };
        let data_reference_index = match mp4.reader.read_u16() {
            Ok(v) => v,
            Err(e) => {
                return Err(e);
            },
        };
        let version = match mp4.reader.read_u16() {
            Ok(v) => v,
            Err(e) => {
                return Err(e);
            },
        };
        let revision_level = match mp4.reader.read_u16() {
            Ok(v) => v,
            Err(e) => {
                return Err(e);
            },
        };
        let vendor = match mp4.reader.read_u32() {
            Ok(v) => v,
            Err(e) => {
                return Err(e);
            },
        };
        let number_of_channels = match mp4.reader.read_u16() {
            Ok(v) => v,
            Err(e) => {
                return Err(e);
            },
        };
        let sample_size = match mp4.reader.read_u16() {
            Ok(v) => v,
            Err(e) => {
                return Err(e);
            },
        };
        let compression_id = match mp4.reader.read_u16() {
            Ok(v) => v,
            Err(e) => {
                return Err(e);
            },
        };
        let packet_size = match mp4.reader.read_u16() {
            Ok(v) => v,
            Err(e) => {
                return Err(e);
            },
        };
        let sample_rate = match mp4.reader.read_u32() {
            Ok(v) => v,
            Err(e) => {
                return Err(e);
            },
        };
        if mp4.position() != end {
            return Err(ParseError::FramingViolation);
        }
        Ok(SampleSoundVersion0DescriptionTable { data_format, reserved, data_reference_index, version, revision_level, vendor, number_of_channels, sample_size, compression_id, packet_size, sample_rate })
    }
}

/// A version-1 sound sample description table.
#[derive(Debug, Clone, PartialEq, Eq)]
pub struct SampleSoundVersion1DescriptionTable {
    pub data_format: u32,
    pub reserved: Vec<u8>,
    pub data_reference_index: u16,
    pub version: u16,
    pub revision_level: u16,
    pub vendor: u32,
    pub number_of_channels: u16,
    pub sample_size: u16,
    pub compression_id: u16,
    pub packet_size: u16,
    pub sample_rate: u32,
}

/// The ghost content of a `SampleSoundVersion1DescriptionTable`.
pub struct SpecSampleSoundVersion1DescriptionTable {
    pub data_format: u32,
    pub reserved: Seq<u8>,
    pub data_reference_index: u16,
    pub version: u16,
    pub revision_level: u16,
    pub vendor: u32,
    pub number_of_channels: u16,
    pub sample_size: u16,
    pub compression_id: u16,
    pub packet_size: u16,
    pub sample_rate: u32,
}

impl DeepView for SampleSoundVersion1DescriptionTable {
    type V = SpecSampleSoundVersion1DescriptionTable;

    open spec fn deep_view(&self) -> SpecSampleSoundVersion1DescriptionTable {
        SpecSampleSoundVersion1DescriptionTable {
            data_format: self.data_format,
            reserved: self.reserved@,
            data_reference_index: self.data_reference_index,
            version: self.version,
            revision_level: self.revision_level,
            vendor: self.vendor,
            number_of_channels: self.number_of_channels,
            sample_size: self.sample_size,
            compression_id: self.compression_id,
            packet_size: self.packet_size,
            sample_rate: self.sample_rate,
        }
    }
}

impl Parse for SampleSoundVersion1DescriptionTable {
    open spec fn spec_parse(b: Seq<u8>, pos: int) -> Result<(SpecSampleSoundVersion1DescriptionTable, int), ParseError> {
        match spec_mdt_frame(b, pos) {
            Err(e) => Err(e),
            Ok(l) => {
                                if pos + 36 > b.len() {
                    Err(ParseError::Truncated)
                } else if l != 36 {
                    Err(ParseError::FramingViolation)
                } else {
                    Ok((SpecSampleSoundVersion1DescriptionTable { data_format: be_u32_at(b, pos + 4) as u32, reserved: b.subrange(pos + 8, pos + 8 + 6), data_reference_index: be_u16_at(b, pos + 14) as u16, version: be_u16_at(b, pos + 16) as u16, revision_level: be_u16_at(b, pos + 18) as u16, vendor: be_u32_at(b, pos + 20) as u32, number_of_channels: be_u16_at(b, pos + 24) as u16, sample_size: be_u16_at(b, pos + 26) as u16, compression_id: be_u16_at(b, pos + 28) as u16, packet_size: be_u16_at(b, pos + 30) as u16, sample_rate: be_u32_at(b, pos + 32) as u32 }, pos + 36))
                }
            },
        }
    }

    fn parse(mp4: &mut Mp4) -> (r: Result<SampleSoundVersion1DescriptionTable, ParseError>) {
        let start = mp4.position();
        let l0 = match mp4.reader.read_u32() {
            Ok(v) => v,
            Err(e) => {
                return Err(e);
            },
        };
        let l = l0 as usize;
        let avail = mp4.reader.source_len() - start;
        if l > avail {
            return Err(ParseError::Truncated);
        }
        let end = start + l;
        let data_format = match mp4.reader.read_u32() {
            Ok(v) => v,
            Err(e) => {
                return Err(e);
            },
        };
        let reserved = match mp4.reader.read_bytes_dyn(6) {
            Ok(v) => v,
            Err(e) => {
                return Err(e);
            },
        };
        let data_reference_index = match mp4.reader.read_u16() {
            Ok(v) => v,
            Err(e) => {
                return Err(e);
            },
        };
        let version = match mp4.reader.read_u16() {
            Ok(v) => v,
            Err(e) => {
                return Err(e);
            },
        };
        let revision_level = match mp4.reader.read_u16() {
            Ok(v) => v,
            Err(e) => {
                return Err(e);
            },
        };
        let vendor = match mp4.reader.read_u32() {
            Ok(v) => v,
            Err(e) => {
                return Err(e);
            },
        };
        let number_of_channels = match mp4.reader.read_u16() {
            Ok(v) => v,
            Err(e) => {
                return Err(e);
            },
        };
        let sample_size = match mp4.reader.read_u16() {
            Ok(v) => v,
            Err(e) => {
                return Err(e);
            },
        };
        let compression_id = match mp4.reader.read_u16() {
            Ok(v) => v,
            Err(e) => {
                return Err(e);
            },
        };
        let packet_size = match mp4.reader.read_u16() {
            Ok(v) => v,
            Err(e) => {
                return Err(e);
            },
        };
        let sample_rate = match mp4.reader.read_u32() {
            Ok(v) => v,
            Err(e) => {
                return Err(e);
            },
        };
        if mp4.position() != end {
            return Err(ParseError::FramingViolation);
        }
        Ok(SampleSoundVersion1DescriptionTable { data_format, reserved, data_reference_index, version, revision_level, vendor, number_of_channels, sample_size, compression_id, packet_size, sample_rate })
    }
}

/// The `gama` atom: no fields of its own; well-formed only as a bare 8-byte
/// frame.
#[derive(Debug, Clone, Copy, PartialEq, Eq)]
pub struct Gama {}

impl DeepView for Gama {
    type V = Gama;

    open spec fn deep_view(&self) -> Gama {
        *self
    }
}

impl Parse for Gama {
    open spec fn spec_parse(b: Seq<u8>, pos: int) -> Result<(Gama, int), ParseError> {
        match spec_empty_leaf(b, pos, GAMA) {
            Err(e) => Err(e),
            Ok(end) => Ok((Gama {}, end)),
        }
    }

    fn parse(mp4: &mut Mp4) -> (r: Result<Gama, ParseError>) {
        match parse_empty_leaf(mp4, GAMA) {
            Ok(v) => Ok(Gama {}),
            Err(e) => Err(e),
        }
    }
}

/// The `fiel` atom: no fields of its own; well-formed only as a bare 8-byte
/// frame.
#[derive(Debug, Clone, Copy, PartialEq, Eq)]
pub struct Fiel {}

impl DeepView for Fiel {
    type V = Fiel;

    open spec fn deep_view(&self) -> Fiel {
        *self
    }
}

impl Parse for Fiel {
    open spec fn spec_parse(b: Seq<u8>, pos: int) -> Result<(Fiel, int), ParseError> {
        match spec_empty_leaf(b, pos, FIEL) {
            Err(e) => Err(e),
            Ok(end) => Ok((Fiel {}, end)),
        }
    }

    fn parse(mp4: &mut Mp4) -> (r: Result<Fiel, ParseError>) {
        match parse_empty_leaf(mp4, FIEL) {
            Ok(v) => Ok(Fiel {}),
            Err(e) => Err(e),
        }
    }
}

/// The `mjqt` atom: no fields of its own; well-formed only as a bare 8-byte
/// frame.
#[derive(Debug, Clone, Copy, PartialEq, Eq)]
pub struct Mjqt {}

impl DeepView for Mjqt {
    type V = Mjqt;

    open spec fn deep_view(&self) -> Mjqt {
        *self
    }
}

impl Parse for Mjqt {
    open spec fn spec_parse(b: Seq<u8>, pos: int) -> Result<(Mjqt, int), ParseError> {
        match spec_empty_leaf(b, pos, MJQT) {
            Err(e) => Err(e),
            Ok(end) => Ok((Mjqt {}, end)),
        }
    }

    fn parse(mp4: &mut Mp4) -> (r: Result<Mjqt, ParseError>) {
        match parse_empty_leaf(mp4, MJQT) {
            Ok(v) => Ok(Mjqt {}),
            Err(e) => Err(e),
        }
    }
}

/// The `mjht` atom: no fields of its own; well-formed only as a bare 8-byte
/// frame.
#[derive(Debug, Clone, Copy, PartialEq, Eq)]
pub struct Mjht {}

impl DeepView for Mjht {
    type V = Mjht;

    open spec fn deep_view(&self) -> Mjht {
        *self
    }
}

impl Parse for Mjht {
    open spec fn spec_parse(b: Seq<u8>, pos: int) -> Result<(Mjht, int), ParseError> {
        match spec_empty_leaf(b, pos, MJHT) {
            Err(e) => Err(e),
            Ok(end) => Ok((Mjht {}, end)),
        }
    }

    fn parse(mp4: &mut Mp4) -> (r: Result<Mjht, ParseError>) {
        match parse_empty_leaf(mp4, MJHT) {
            Ok(v) => Ok(Mjht {}),
            Err(e) => Err(e),
        }
    }
}

/// The `esds` atom: no fields of its own; well-formed only as a bare 8-byte
/// frame.
#[derive(Debug, Clone, Copy, PartialEq, Eq)]
pub struct Esds {}

impl DeepView for Esds {
    type V = Esds;

    open spec fn deep_view(&self) -> Esds {
        *self
    }
}

impl Parse for Esds {
    open spec fn spec_parse(b: Seq<u8>, pos: int) -> Result<(Esds, int), ParseError> {
        match spec_empty_leaf(b, pos, ESDS) {
            Err(e) => Err(e),
            Ok(end) => Ok((Esds {}, end)),
        }
    }

    fn parse(mp4: &mut Mp4) -> (r: Result<Esds, ParseError>) {
        match parse_empty_leaf(mp4, ESDS) {
            Ok(v) => Ok(Esds {}),
            Err(e) => Err(e),
        }
    }
}

/// The `pasp` atom: no fields of its own; well-formed only as a bare 8-byte
/// frame.
#[derive(Debug, Clone, Copy, PartialEq, Eq)]
pub struct Pasp {}

impl DeepView for Pasp {
    type V = Pasp;

    open spec fn deep_view(&self) -> Pasp {
        *self
    }
}

impl Parse for Pasp {
    open spec fn spec_parse(b: Seq<u8>, pos: int) -> Result<(Pasp, int), ParseError> {
        match spec_empty_leaf(b, pos, PASP) {
            Err(e) => Err(e),
            Ok(end) => Ok((Pasp {}, end)),
        }
    }

    fn parse(mp4: &mut Mp4) -> (r: Result<Pasp, ParseError>) {
        match parse_empty_leaf(mp4, PASP) {
            Ok(v) => Ok(Pasp {}),
            Err(e) => Err(e),
        }
    }
}

/// The `colr` atom: no fields of its own; well-formed only as a bare 8-byte
/// frame.
#[derive(Debug, Clone, Copy, PartialEq, Eq)]
pub struct Colr {}

impl DeepView for Colr {
    type V = Colr;

    open spec fn deep_view(&self) -> Colr {
        *self
    }
}

impl Parse for Colr {
    open spec fn spec_parse(b: Seq<u8>, pos: int) -> Result<(Colr, int), ParseError> {
        match spec_empty_leaf(b, pos, COLR) {
            Err(e) => Err(e),
            Ok(end) => Ok((Colr {}, end)),
        }
    }

    fn parse(mp4: &mut Mp4) -> (r: Result<Colr, ParseError>) {
        match parse_empty_leaf(mp4, COLR) {
            Ok(v) => Ok(Colr {}),
            Err(e) => Err(e),
        }
    }
}

/// The `clap` atom: no fields of its own; well-formed only as a bare 8-byte
/// frame.
#[derive(Debug, Clone, Copy, PartialEq, Eq)]
pub struct Clap {}

impl DeepView for Clap {
    type V = Clap;

    open spec fn deep_view(&self) -> Clap {
        *self
    }
}

impl Parse for Clap {
    open spec fn spec_parse(b: Seq<u8>, pos: int) -> Result<(Clap, int), ParseError> {
        match spec_empty_leaf(b, pos, CLAP) {
            Err(e) => Err(e),
            Ok(end) => Ok((Clap {}, end)),
        }
    }

    fn parse(mp4: &mut Mp4) -> (r: Result<Clap, ParseError>) {
        match parse_empty_leaf(mp4, CLAP) {
            Ok(v) => Ok(Clap {}),
            Err(e) => Err(e),
        }
    }
}

/// The index of the first `avcC` extension of `s`, or -1 when none is one.
pub open spec fn first_avcc(s: Seq<VideoSampleExtension>) -> int
    decreases s.len(),
{
    if s.len() == 0 {
        -1
    } else if s[0] is AvcC {
        0
    } else {
        let rest = first_avcc(s.skip(1));
        if rest < 0 {
            -1
        } else {
            rest + 1
        }
    }
}

/// `first_avcc` names the first `avcC` extension: the entry there is one, no
/// earlier entry is, and -1 means none is.
pub proof fn lemma_first_avcc(s: Seq<VideoSampleExtension>)
    ensures
        ({
            let i = first_avcc(s);
            &&& i >= -1
            &&& i >= 0 ==> 0 <= i < s.len() && s[i] is AvcC && (forall|j: int|
                0 <= j < i ==> !(s[j] is AvcC))
            &&& i < 0 ==> forall|j: int| 0 <= j < s.len() ==> !(s[j] is AvcC)
        }),
    decreases s.len(),
{
    if s.len() == 0 {
    } else if s[0] is AvcC {
    } else {
        lemma_first_avcc(s.skip(1));
        assert(forall|j: int| 0 <= j < s.skip(1).len() ==> #[trigger] s.skip(1)[j] == s[j + 1]);
        let i = first_avcc(s);
        if i >= 0 {
            assert(s[i] == s.skip(1)[i - 1]);
            assert forall|j: int| 0 <= j < i implies !(s[j] is AvcC) by {
                if j >= 1 {
                    assert(s[j] == s.skip(1)[j - 1]);
                }
            }
        } else {
            assert forall|j: int| 0 <= j < s.len() implies !(s[j] is AvcC) by {
                if j >= 1 {
                    assert(s[j] == s.skip(1)[j - 1]);
                }
            }
        }
    }
}

impl SampleVideoDescriptionTable {
    /// The first `avcC` configuration box among this table's extensions, if
    /// any extension is one.
    pub fn avcc(&self) -> (r: Option<&AvcC>)
        ensures
            ({
                let i = first_avcc(self.extensions@);
                &&& i >= 0 ==> (r matches Some(a) && self.extensions@[i]
                    == VideoSampleExtension::AvcC(*a))
                &&& i < 0 ==> r is None
            }),
    {
        proof {
            lemma_first_avcc(self.extensions@);
        }
        let mut j: usize = 0;
        while j < self.extensions.len()
            invariant
                j <= self.extensions@.len(),
                forall|k: int| 0 <= k < j ==> !(#[trigger] self.extensions@[k] is AvcC),
            decreases self.extensions@.len() - j,
        {
            match &self.extensions[j] {
                VideoSampleExtension::AvcC(a) => {
                    proof {
                        lemma_first_avcc(self.extensions@);
                    }
                    return Some(a);
                },
                _ => {},
            }
            j = j + 1;
        }
        None
    }
}

/// A parsed sample description table, keyed by the track's media kind. Only
/// video tracks are interpreted so far.
#[derive(Debug, Clone, PartialEq, Eq)]
#[non_exhaustive]
pub enum SampleDescriptionTable {
    Video(SampleVideoDescriptionTable),
}

/// The ghost content of a `SampleDescriptionTable`.
pub enum SpecSampleDescriptionTable {
    Video(SpecSampleVideoDescriptionTable),
}

impl DeepView for SampleDescriptionTable {
    type V = SpecSampleDescriptionTable;

    open spec fn deep_view(&self) -> SpecSampleDescriptionTable {
        match self {
            SampleDescriptionTable::Video(t) => SpecSampleDescriptionTable::Video(t.deep_view()),
        }
    }
}


/// What parsing a sample description at `off` as media kind `subtype` yields:
/// video tables are parsed in full; any other media kind is reported as an
/// unknown variant with its tag bytes.
pub open spec fn spec_parse_sample_description(b: Seq<u8>, off: int, subtype: u32) -> Result<
    (SpecSampleDescriptionTable, int),
    ParseError,
> {
    if off > b.len() {
        Err(ParseError::Truncated)
    } else if subtype == VIDE {
        match <SampleVideoDescriptionTable as Parse>::spec_parse(b, off) {
            Err(e) => Err(e),
            Ok(rs) => Ok((SpecSampleDescriptionTable::Video(rs.0), rs.1)),
        }
    } else {
        Err(ParseError::UnknownVariant(subtype))
    }
}

impl Mp4 {
    /// Seeks to a sample description table and parses it as the media kind
    /// named by `subtype` (a track handler's component subtype): `vide`
    /// tables are interpreted; every other kind is an unknown variant.
    pub fn parse_sample_description(
        &mut self,
        base: Reference<BaseSampleDescriptionTable>,
        subtype: u32,
    ) -> (r: Result<SampleDescriptionTable, ParseError>)
        requires
            old(self).wf(),
        ensures
            final(self).wf(),
            final(self).bytes() == old(self).bytes(),
            match spec_parse_sample_description(old(self).bytes(), base.offset as int, subtype) {
                Ok(rs) => r matches Ok(v) && v.deep_view() == rs.0 && final(self).pos() == rs.1,
                Err(e) => r matches Err(e2) && e2 == e,
            },
    {
        match self.jump_to(base.offset) {
            Ok(v) => {},
            Err(e) => {
                return Err(e);
            },
        }
        if subtype == VIDE {
            match <SampleVideoDescriptionTable as Parse>::parse(self) {
                Ok(v) => Ok(SampleDescriptionTable::Video(v)),
                Err(e) => Err(e),
            }
        } else {
            Err(ParseError::UnknownVariant(subtype))
        }
    }
}

impl Reference<BaseSampleDescriptionTable> {
    /// Resolves this sample description reference as the media kind named by
    /// `subtype`.
    pub fn parse_sample_description(self, mp4: &mut Mp4, subtype: u32) -> (r: Result<
        SampleDescriptionTable,
        ParseError,
    >)
        requires
            old(mp4).wf(),
        ensures
            final(mp4).wf(),
            final(mp4).bytes() == old(mp4).bytes(),
            match spec_parse_sample_description(old(mp4).bytes(), self.offset as int, subtype) {
                Ok(rs) => r matches Ok(v) && v.deep_view() == rs.0 && final(mp4).pos() == rs.1,
                Err(e) => r matches Err(e2) && e2 == e,
            },
    {
        mp4.parse_sample_description(self, subtype)
    }
}

} // verus!

