use vstd::prelude::*;

use crate::data_structures::{spec_matrix_at, Matrix};
use crate::error::ParseError;
use crate::reader::{be_u16_at, be_u32_at, be_u64_at};
use crate::{read_leaf_frame, spec_leaf_frame, Mp4, Parse};

use crate::reference::{Reference, SpecReference};

use super::header::{EDTS, IMAP, LOAD, MATT, MDIA, TAPT, TKHD, TREF, TXAS};
use super::{
    copied, first_match, parse_container_body, parse_empty_leaf, spec_container_body,
    spec_empty_leaf, take_first_match, InternalElement, Mdia, UnparsedAtom,
};

verus! {


/// The `tkhd` track header: the track's temporal, spatial and volume
/// characteristics.
#[derive(Debug, Clone, PartialEq, Eq)]
pub struct Tkhd {
    pub version: u8,
    pub flags: Vec<u8>,
    pub creation_time: u32,
    pub modification_time: u32,
    pub track_id: u32,
    pub reserved: u32,
    pub duration: u32,
    pub reserved_2: u64,
    pub layer: u16,
    pub alternate_group: u16,
    pub volume: u16,
    pub reserved_3: u16,
    pub matrix: Matrix,
    pub track_width: u32,
    pub track_height: u32,
}

/// The ghost content of a `Tkhd`.
pub struct SpecTkhd {
    pub version: u8,
    pub flags: Seq<u8>,
    pub creation_time: u32,
    pub modification_time: u32,
    pub track_id: u32,
    pub reserved: u32,
    pub duration: u32,
    pub reserved_2: u64,
    pub layer: u16,
    pub alternate_group: u16,
    pub volume: u16,
    pub reserved_3: u16,
    pub matrix: Matrix,
    pub track_width: u32,
    pub track_height: u32,
}

impl DeepView for Tkhd {
    type V = SpecTkhd;

    open spec fn deep_view(&self) -> SpecTkhd {
        SpecTkhd {
            version: self.version,
            flags: self.flags@,
            creation_time: self.creation_time,
            modification_time: self.modification_time,
            track_id: self.track_id,
            reserved: self.reserved,
            duration: self.duration,
            reserved_2: self.reserved_2,
            layer: self.layer,
            alternate_group: self.alternate_group,
            volume: self.volume,
            reserved_3: self.reserved_3,
            matrix: self.matrix,
            track_width: self.track_width,
            track_height: self.track_height,
        }
    }
}

impl Parse for Tkhd {
    open spec fn spec_parse(b: Seq<u8>, pos: int) -> Result<(SpecTkhd, int), ParseError> {
        match spec_leaf_frame(b, pos, TKHD) {
            Err(e) => Err(e),
            Ok(l) => {
                                if pos + 92 > b.len() {
                    Err(ParseError::Truncated)
                } else if l != 92 {
                    Err(ParseError::FramingViolation)
                } else {
                    Ok((SpecTkhd { version: b[pos + 8], flags: b.subrange(pos + 9, pos + 9 + 3), creation_time: be_u32_at(b, pos + 12) as u32, modification_time: be_u32_at(b, pos + 16) as u32, track_id: be_u32_at(b, pos + 20) as u32, reserved: be_u32_at(b, pos + 24) as u32, duration: be_u32_at(b, pos + 28) as u32, reserved_2: be_u64_at(b, pos + 32) as u64, layer: be_u16_at(b, pos + 40) as u16, alternate_group: be_u16_at(b, pos + 42) as u16, volume: be_u16_at(b, pos + 44) as u16, reserved_3: be_u16_at(b, pos + 46) as u16, matrix: spec_matrix_at(b, pos + 48), track_width: be_u32_at(b, pos + 84) as u32, track_height: be_u32_at(b, pos + 88) as u32 }, pos + 92))
                }
            },
        }
    }

    fn parse(mp4: &mut Mp4) -> (r: Result<Tkhd, ParseError>) {
        let start = mp4.position();
        let l = match read_leaf_frame(mp4, TKHD) {
            Ok(v) => v,
            Err(e) => {
                return Err(e);
            },
        };
        let end = start + l;
        let version = match mp4.reader.read_u8() {
            Ok(v) => v,
            Err(e) => {
                return Err(e);
            },
        };
        let flags = match mp4.reader.read_bytes_dyn(3) {
            Ok(v) => v,
            Err(e) => {
                return Err(e);
            },
        };
        let creation_time = match mp4.reader.read_u32() {
            Ok(v) => v,
            Err(e) => {
                return Err(e);
            },
        };
        let modification_time = match mp4.reader.read_u32() {
            Ok(v) => v,
            Err(e) => {
                return Err(e);
            },
        };
        let track_id = match mp4.reader.read_u32() {
            Ok(v) => v,
            Err(e) => {
                return Err(e);
            },
        };
        let reserved = match mp4.reader.read_u32() {
            Ok(v) => v,
            Err(e) => {
                return Err(e);
            },
        };
        let duration = match mp4.reader.read_u32() {
            Ok(v) => v,
            Err(e) => {
                return Err(e);
            },
        };
        let reserved_2 = match mp4.reader.read_u64() {
            Ok(v) => v,
            Err(e) => {
                return Err(e);
            },
        };
        let layer = match mp4.reader.read_u16() {
            Ok(v) => v,
            Err(e) => {
                return Err(e);
            },
        };
        let alternate_group = match mp4.reader.read_u16() {
            Ok(v) => v,
            Err(e) => {
                return Err(e);
            },
        };
        let volume = match mp4.reader.read_u16() {
            Ok(v) => v,
            Err(e) => {
                return Err(e);
            },
        };
        let reserved_3 = match mp4.reader.read_u16() {
            Ok(v) => v,
            Err(e) => {
                return Err(e);
            },
        };
        let matrix = match mp4.read_matrix() {
            Ok(v) => v,
            Err(e) => {
                return Err(e);
            },
        };
        let track_width = match mp4.reader.read_u32() {
            Ok(v) => v,
            Err(e) => {
                return Err(e);
            },
        };
        let track_height = match mp4.reader.read_u32() {
            Ok(v) => v,
            Err(e) => {
                return Err(e);
            },
        };
        if mp4.position() != end {
            return Err(ParseError::FramingViolation);
        }
        Ok(Tkhd { version, flags, creation_time, modification_time, track_id, reserved, duration, reserved_2, layer, alternate_group, volume, reserved_3, matrix, track_width, track_height })
    }
}

/// The `tapt` atom: no fields of its own; well-formed only as a bare 8-byte
/// frame.
#[derive(Debug, Clone, Copy, PartialEq, Eq)]
pub struct Tapt {}

impl DeepView for Tapt {
    type V = Tapt;

    open spec fn deep_view(&self) -> Tapt {
        *self
    }
}

impl Parse for Tapt {
    open spec fn spec_parse(b: Seq<u8>, pos: int) -> Result<(Tapt, int), ParseError> {
        match spec_empty_leaf(b, pos, TAPT) {
            Err(e) => Err(e),
            Ok(end) => Ok((Tapt {}, end)),
        }
    }

    fn parse(mp4: &mut Mp4) -> (r: Result<Tapt, ParseError>) {
        match parse_empty_leaf(mp4, TAPT) {
            Ok(v) => Ok(Tapt {}),
            Err(e) => Err(e),
        }
    }
}

/// The `matt` atom: no fields of its own; well-formed only as a bare 8-byte
/// frame.
#[derive(Debug, Clone, Copy, PartialEq, Eq)]
pub struct Matt {}

impl DeepView for Matt {
    type V = Matt;

    open spec fn deep_view(&self) -> Matt {
        *self
    }
}

impl Parse for Matt {
    open spec fn spec_parse(b: Seq<u8>, pos: int) -> Result<(Matt, int), ParseError> {
        match spec_empty_leaf(b, pos, MATT) {
            Err(e) => Err(e),
            Ok(end) => Ok((Matt {}, end)),
        }
    }

    fn parse(mp4: &mut Mp4) -> (r: Result<Matt, ParseError>) {
        match parse_empty_leaf(mp4, MATT) {
            Ok(v) => Ok(Matt {}),
            Err(e) => Err(e),
        }
    }
}

/// The `edts` atom: no fields of its own; well-formed only as a bare 8-byte
/// frame.
#[derive(Debug, Clone, Copy, PartialEq, Eq)]
pub struct Edts {}

impl DeepView for Edts {
    type V = Edts;

    open spec fn deep_view(&self) -> Edts {
        *self
    }
}

impl Parse for Edts {
    open spec fn spec_parse(b: Seq<u8>, pos: int) -> Result<(Edts, int), ParseError> {
        match spec_empty_leaf(b, pos, EDTS) {
            Err(e) => Err(e),
            Ok(end) => Ok((Edts {}, end)),
        }
    }

    fn parse(mp4: &mut Mp4) -> (r: Result<Edts, ParseError>) {
        match parse_empty_leaf(mp4, EDTS) {
            Ok(v) => Ok(Edts {}),
            Err(e) => Err(e),
        }
    }
}

/// The `tref` atom: no fields of its own; well-formed only as a bare 8-byte
/// frame.
#[derive(Debug, Clone, Copy, PartialEq, Eq)]
pub struct Tref {}

impl DeepView for Tref {
    type V = Tref;

    open spec fn deep_view(&self) -> Tref {
        *self
    }
}

impl Parse for Tref {
    open spec fn spec_parse(b: Seq<u8>, pos: int) -> Result<(Tref, int), ParseError> {
        match spec_empty_leaf(b, pos, TREF) {
            Err(e) => Err(e),
            Ok(end) => Ok((Tref {}, end)),
        }
    }

    fn parse(mp4: &mut Mp4) -> (r: Result<Tref, ParseError>) {
        match parse_empty_leaf(mp4, TREF) {
            Ok(v) => Ok(Tref {}),
            Err(e) => Err(e),
        }
    }
}

/// The `txas` atom: no fields of its own; well-formed only as a bare 8-byte
/// frame.
#[derive(Debug, Clone, Copy, PartialEq, Eq)]
pub struct Txas {}

impl DeepView for Txas {
    type V = Txas;

    open spec fn deep_view(&self) -> Txas {
        *self
    }
}

impl Parse for Txas {
    open spec fn spec_parse(b: Seq<u8>, pos: int) -> Result<(Txas, int), ParseError> {
        match spec_empty_leaf(b, pos, TXAS) {
            Err(e) => Err(e),
            Ok(end) => Ok((Txas {}, end)),
        }
    }

    fn parse(mp4: &mut Mp4) -> (r: Result<Txas, ParseError>) {
        match parse_empty_leaf(mp4, TXAS) {
            Ok(v) => Ok(Txas {}),
            Err(e) => Err(e),
        }
    }
}

/// The `load` atom: no fields of its own; well-formed only as a bare 8-byte
/// frame.
#[derive(Debug, Clone, Copy, PartialEq, Eq)]
pub struct Load {}

impl DeepView for Load {
    type V = Load;

    open spec fn deep_view(&self) -> Load {
        *self
    }
}

impl Parse for Load {
    open spec fn spec_parse(b: Seq<u8>, pos: int) -> Result<(Load, int), ParseError> {
        match spec_empty_leaf(b, pos, LOAD) {
            Err(e) => Err(e),
            Ok(end) => Ok((Load {}, end)),
        }
    }

    fn parse(mp4: &mut Mp4) -> (r: Result<Load, ParseError>) {
        match parse_empty_leaf(mp4, LOAD) {
            Ok(v) => Ok(Load {}),
            Err(e) => Err(e),
        }
    }
}

/// The `imap` atom: no fields of its own; well-formed only as a bare 8-byte
/// frame.
#[derive(Debug, Clone, Copy, PartialEq, Eq)]
pub struct Imap {}

impl DeepView for Imap {
    type V = Imap;

    open spec fn deep_view(&self) -> Imap {
        *self
    }
}

impl Parse for Imap {
    open spec fn spec_parse(b: Seq<u8>, pos: int) -> Result<(Imap, int), ParseError> {
        match spec_empty_leaf(b, pos, IMAP) {
            Err(e) => Err(e),
            Ok(end) => Ok((Imap {}, end)),
        }
    }

    fn parse(mp4: &mut Mp4) -> (r: Result<Imap, ParseError>) {
        match parse_empty_leaf(mp4, IMAP) {
            Ok(v) => Ok(Imap {}),
            Err(e) => Err(e),
        }
    }
}

/// The `trak` container atom: one track's characteristics and media.
/// Created fully populated with its unresolved children; each named role is
/// resolved on demand and memoized, claiming its child out of the unresolved
/// list.
#[derive(Debug, Clone, PartialEq, Eq)]
pub struct Trak {
    pub unparsed_atoms: Vec<UnparsedAtom>,
    pub track_header: InternalElement<Reference<Tkhd>>,
    pub tapt: InternalElement<Option<Reference<Tapt>>>,
    pub matt: InternalElement<Option<Reference<Matt>>>,
    pub edts: InternalElement<Option<Reference<Edts>>>,
    pub tref: InternalElement<Option<Reference<Tref>>>,
    pub txas: InternalElement<Option<Reference<Txas>>>,
    pub load: InternalElement<Option<Reference<Load>>>,
    pub imap: InternalElement<Option<Reference<Imap>>>,
    pub mdia: InternalElement<Reference<Mdia>>,
}

/// The ghost content of a `Trak`.
pub struct SpecTrak {
    pub unparsed_atoms: Seq<UnparsedAtom>,
    pub track_header: InternalElement<SpecReference>,
    pub tapt: InternalElement<Option<SpecReference>>,
    pub matt: InternalElement<Option<SpecReference>>,
    pub edts: InternalElement<Option<SpecReference>>,
    pub tref: InternalElement<Option<SpecReference>>,
    pub txas: InternalElement<Option<SpecReference>>,
    pub load: InternalElement<Option<SpecReference>>,
    pub imap: InternalElement<Option<SpecReference>>,
    pub mdia: InternalElement<SpecReference>,
}

impl DeepView for Trak {
    type V = SpecTrak;

    open spec fn deep_view(&self) -> SpecTrak {
        SpecTrak {
            unparsed_atoms: self.unparsed_atoms.deep_view(),
            track_header: self.track_header.deep_view(),
            tapt: self.tapt.deep_view(),
            matt: self.matt.deep_view(),
            edts: self.edts.deep_view(),
            tref: self.tref.deep_view(),
            txas: self.txas.deep_view(),
            load: self.load.deep_view(),
            imap: self.imap.deep_view(),
            mdia: self.mdia.deep_view(),
        }
    }
}

impl Parse for Trak {
    open spec fn spec_parse(b: Seq<u8>, pos: int) -> Result<(SpecTrak, int), ParseError> {
        match spec_container_body(b, pos) {
            Err(e) => Err(e),
            Ok(rs) => Ok((SpecTrak { unparsed_atoms: rs.0, track_header: InternalElement::NotSearched, tapt: InternalElement::NotSearched, matt: InternalElement::NotSearched, edts: InternalElement::NotSearched, tref: InternalElement::NotSearched, txas: InternalElement::NotSearched, load: InternalElement::NotSearched, imap: InternalElement::NotSearched, mdia: InternalElement::NotSearched }, rs.1)),
        }
    }

    fn parse(mp4: &mut Mp4) -> (r: Result<Trak, ParseError>) {
        let atoms = match parse_container_body(mp4) {
            Ok(v) => v,
            Err(e) => {
                return Err(e);
            },
        };
        Ok(
            Trak {
                unparsed_atoms: atoms,
                track_header: InternalElement::NotSearched,
                tapt: InternalElement::NotSearched,
                matt: InternalElement::NotSearched,
                edts: InternalElement::NotSearched,
                tref: InternalElement::NotSearched,
                txas: InternalElement::NotSearched,
                load: InternalElement::NotSearched,
                imap: InternalElement::NotSearched,
                mdia: InternalElement::NotSearched,
            },
        )
    }
}

impl Trak {
    /// Resolves the required `track_header` role: on first access the first matching
    /// child is claimed out of the unresolved list and cached; later accesses
    /// return the cache untouched. A missing child is `MissingRequiredChild`.
    pub fn track_header(&mut self) -> (r: Result<Reference<Tkhd>, ParseError>)
        ensures
            match old(self).track_header {
                InternalElement::Searched(v) => *final(self) == *old(self) && (r matches Ok(x)
                    && x == v),
                InternalElement::NotSearched => ({
                    let s = old(self).unparsed_atoms@;
                    let i = first_match(s, TKHD);
                    if i >= 0 {
                        &&& r matches Ok(x) && x.offset == s[i].offset && x.len == s[i].len
                            && final(self).track_header == InternalElement::Searched(x)
                        &&& final(self).unparsed_atoms@ == s.remove(i)
                        &&& final(self).tapt == old(self).tapt &&& final(self).matt == old(self).matt &&& final(self).edts == old(self).edts &&& final(self).tref == old(self).tref &&& final(self).txas == old(self).txas &&& final(self).load == old(self).load &&& final(self).imap == old(self).imap &&& final(self).mdia == old(self).mdia
                    } else {
                        &&& r matches Err(e) && e == ParseError::MissingRequiredChild
                        &&& *final(self) == *old(self)
                    }
                }),
            },
    {
        match &self.track_header {
            InternalElement::Searched(v) => {
                return Ok(*v);
            },
            InternalElement::NotSearched => {},
        }
        match take_first_match(&mut self.unparsed_atoms, TKHD) {
            Some(a) => {
                let x: Reference<Tkhd> = Reference::new(a.offset, a.len);
                self.track_header = InternalElement::Searched(x);
                Ok(x)
            },
            None => Err(ParseError::MissingRequiredChild),
        }
    }

    /// Resolves the optional `tapt` role: on first access the first matching
    /// child, if any, is claimed out of the unresolved list; the outcome —
    /// present or absent — is cached, and later accesses return it untouched.
    pub fn tapt(&mut self) -> (r: Option<Reference<Tapt>>)
        ensures
            match old(self).tapt {
                InternalElement::Searched(v) => *final(self) == *old(self) && r == v,
                InternalElement::NotSearched => ({
                    let s = old(self).unparsed_atoms@;
                    let i = first_match(s, TAPT);
                    &&& final(self).tapt == InternalElement::Searched(r)
                    &&& final(self).track_header == old(self).track_header &&& final(self).matt == old(self).matt &&& final(self).edts == old(self).edts &&& final(self).tref == old(self).tref &&& final(self).txas == old(self).txas &&& final(self).load == old(self).load &&& final(self).imap == old(self).imap &&& final(self).mdia == old(self).mdia
                    &&& if i >= 0 {
                        r matches Some(x) && x.offset == s[i].offset && x.len == s[i].len
                            && final(self).unparsed_atoms@ == s.remove(i)
                    } else {
                        r is None && final(self).unparsed_atoms@ == s
                    }
                }),
            },
    {
        match &self.tapt {
            InternalElement::Searched(v) => {
                return *v;
            },
            InternalElement::NotSearched => {},
        }
        let r = match take_first_match(&mut self.unparsed_atoms, TAPT) {
            Some(a) => Some(Reference::<Tapt>::new(a.offset, a.len)),
            None => None,
        };
        self.tapt = InternalElement::Searched(r);
        r
    }

    /// Resolves the optional `matt` role: on first access the first matching
    /// child, if any, is claimed out of the unresolved list; the outcome —
    /// present or absent — is cached, and later accesses return it untouched.
    pub fn matt(&mut self) -> (r: Option<Reference<Matt>>)
        ensures
            match old(self).matt {
                InternalElement::Searched(v) => *final(self) == *old(self) && r == v,
                InternalElement::NotSearched => ({
                    let s = old(self).unparsed_atoms@;
                    let i = first_match(s, MATT);
                    &&& final(self).matt == InternalElement::Searched(r)
                    &&& final(self).track_header == old(self).track_header &&& final(self).tapt == old(self).tapt &&& final(self).edts == old(self).edts &&& final(self).tref == old(self).tref &&& final(self).txas == old(self).txas &&& final(self).load == old(self).load &&& final(self).imap == old(self).imap &&& final(self).mdia == old(self).mdia
                    &&& if i >= 0 {
                        r matches Some(x) && x.offset == s[i].offset && x.len == s[i].len
                            && final(self).unparsed_atoms@ == s.remove(i)
                    } else {
                        r is None && final(self).unparsed_atoms@ == s
                    }
                }),
            },
    {
        match &self.matt {
            InternalElement::Searched(v) => {
                return *v;
            },
            InternalElement::NotSearched => {},
        }
        let r = match take_first_match(&mut self.unparsed_atoms, MATT) {
            Some(a) => Some(Reference::<Matt>::new(a.offset, a.len)),
            None => None,
        };
        self.matt = InternalElement::Searched(r);
        r
    }

    /// Resolves the optional `edts` role: on first access the first matching
    /// child, if any, is claimed out of the unresolved list; the outcome —
    /// present or absent — is cached, and later accesses return it untouched.
    pub fn edts(&mut self) -> (r: Option<Reference<Edts>>)
        ensures
            match old(self).edts {
                InternalElement::Searched(v) => *final(self) == *old(self) && r == v,
                InternalElement::NotSearched => ({
                    let s = old(self).unparsed_atoms@;
                    let i = first_match(s, EDTS);
                    &&& final(self).edts == InternalElement::Searched(r)
                    &&& final(self).track_header == old(self).track_header &&& final(self).tapt == old(self).tapt &&& final(self).matt == old(self).matt &&& final(self).tref == old(self).tref &&& final(self).txas == old(self).txas &&& final(self).load == old(self).load &&& final(self).imap == old(self).imap &&& final(self).mdia == old(self).mdia
                    &&& if i >= 0 {
                        r matches Some(x) && x.offset == s[i].offset && x.len == s[i].len
                            && final(self).unparsed_atoms@ == s.remove(i)
                    } else {
                        r is None && final(self).unparsed_atoms@ == s
                    }
                }),
            },
    {
        match &self.edts {
            InternalElement::Searched(v) => {
                return *v;
            },
            InternalElement::NotSearched => {},
        }
        let r = match take_first_match(&mut self.unparsed_atoms, EDTS) {
            Some(a) => Some(Reference::<Edts>::new(a.offset, a.len)),
            None => None,
        };
        self.edts = InternalElement::Searched(r);
        r
    }

    /// Resolves the optional `tref` role: on first access the first matching
    /// child, if any, is claimed out of the unresolved list; the outcome —
    /// present or absent — is cached, and later accesses return it untouched.
    pub fn tref(&mut self) -> (r: Option<Reference<Tref>>)
        ensures
            match old(self).tref {
                InternalElement::Searched(v) => *final(self) == *old(self) && r == v,
                InternalElement::NotSearched => ({
                    let s = old(self).unparsed_atoms@;
                    let i = first_match(s, TREF);
                    &&& final(self).tref == InternalElement::Searched(r)
                    &&& final(self).track_header == old(self).track_header &&& final(self).tapt == old(self).tapt &&& final(self).matt == old(self).matt &&& final(self).edts == old(self).edts &&& final(self).txas == old(self).txas &&& final(self).load == old(self).load &&& final(self).imap == old(self).imap &&& final(self).mdia == old(self).mdia
                    &&& if i >= 0 {
                        r matches Some(x) && x.offset == s[i].offset && x.len == s[i].len
                            && final(self).unparsed_atoms@ == s.remove(i)
                    } else {
                        r is None && final(self).unparsed_atoms@ == s
                    }
                }),
            },
    {
        match &self.tref {
            InternalElement::Searched(v) => {
                return *v;
            },
            InternalElement::NotSearched => {},
        }
        let r = match take_first_match(&mut self.unparsed_atoms, TREF) {
            Some(a) => Some(Reference::<Tref>::new(a.offset, a.len)),
            None => None,
        };
        self.tref = InternalElement::Searched(r);
        r
    }

    /// Resolves the optional `txas` role: on first access the first matching
    /// child, if any, is claimed out of the unresolved list; the outcome —
    /// present or absent — is cached, and later accesses return it untouched.
    pub fn txas(&mut self) -> (r: Option<Reference<Txas>>)
        ensures
            match old(self).txas {
                InternalElement::Searched(v) => *final(self) == *old(self) && r == v,
                InternalElement::NotSearched => ({
                    let s = old(self).unparsed_atoms@;
                    let i = first_match(s, TXAS);
                    &&& final(self).txas == InternalElement::Searched(r)
                    &&& final(self).track_header == old(self).track_header &&& final(self).tapt == old(self).tapt &&& final(self).matt == old(self).matt &&& final(self).edts == old(self).edts &&& final(self).tref == old(self).tref &&& final(self).load == old(self).load &&& final(self).imap == old(self).imap &&& final(self).mdia == old(self).mdia
                    &&& if i >= 0 {
                        r matches Some(x) && x.offset == s[i].offset && x.len == s[i].len
                            && final(self).unparsed_atoms@ == s.remove(i)
                    } else {
                        r is None && final(self).unparsed_atoms@ == s
                    }
                }),
            },
    {
        match &self.txas {
            InternalElement::Searched(v) => {
                return *v;
            },
            InternalElement::NotSearched => {},
        }
        let r = match take_first_match(&mut self.unparsed_atoms, TXAS) {
            Some(a) => Some(Reference::<Txas>::new(a.offset, a.len)),
            None => None,
        };
        self.txas = InternalElement::Searched(r);
        r
    }

    /// Resolves the optional `load` role: on first access the first matching
    /// child, if any, is claimed out of the unresolved list; the outcome —
    /// present or absent — is cached, and later accesses return it untouched.
    pub fn load(&mut self) -> (r: Option<Reference<Load>>)
        ensures
            match old(self).load {
                InternalElement::Searched(v) => *final(self) == *old(self) && r == v,
                InternalElement::NotSearched => ({
                    let s = old(self).unparsed_atoms@;
                    let i = first_match(s, LOAD);
                    &&& final(self).load == InternalElement::Searched(r)
                    &&& final(self).track_header == old(self).track_header &&& final(self).tapt == old(self).tapt &&& final(self).matt == old(self).matt &&& final(self).edts == old(self).edts &&& final(self).tref == old(self).tref &&& final(self).txas == old(self).txas &&& final(self).imap == old(self).imap &&& final(self).mdia == old(self).mdia
                    &&& if i >= 0 {
                        r matches Some(x) && x.offset == s[i].offset && x.len == s[i].len
                            && final(self).unparsed_atoms@ == s.remove(i)
                    } else {
                        r is None && final(self).unparsed_atoms@ == s
                    }
                }),
            },
    {
        match &self.load {
            InternalElement::Searched(v) => {
                return *v;
            },
            InternalElement::NotSearched => {},
        }
        let r = match take_first_match(&mut self.unparsed_atoms, LOAD) {
            Some(a) => Some(Reference::<Load>::new(a.offset, a.len)),
            None => None,
        };
        self.load = InternalElement::Searched(r);
        r
    }

    /// Resolves the optional `imap` role: on first access the first matching
    /// child, if any, is claimed out of the unresolved list; the outcome —
    /// present or absent — is cached, and later accesses return it untouched.
    pub fn imap(&mut self) -> (r: Option<Reference<Imap>>)
        ensures
            match old(self).imap {
                InternalElement::Searched(v) => *final(self) == *old(self) && r == v,
                InternalElement::NotSearched => ({
                    let s = old(self).unparsed_atoms@;
                    let i = first_match(s, IMAP);
                    &&& final(self).imap == InternalElement::Searched(r)
                    &&& final(self).track_header == old(self).track_header &&& final(self).tapt == old(self).tapt &&& final(self).matt == old(self).matt &&& final(self).edts == old(self).edts &&& final(self).tref == old(self).tref &&& final(self).txas == old(self).txas &&& final(self).load == old(self).load &&& final(self).mdia == old(self).mdia
                    &&& if i >= 0 {
                        r matches Some(x) && x.offset == s[i].offset && x.len == s[i].len
                            && final(self).unparsed_atoms@ == s.remove(i)
                    } else {
                        r is None && final(self).unparsed_atoms@ == s
                    }
                }),
            },
    {
        match &self.imap {
            InternalElement::Searched(v) => {
                return *v;
            },
            InternalElement::NotSearched => {},
        }
        let r = match take_first_match(&mut self.unparsed_atoms, IMAP) {
            Some(a) => Some(Reference::<Imap>::new(a.offset, a.len)),
            None => None,
        };
        self.imap = InternalElement::Searched(r);
        r
    }

    /// Resolves the required `mdia` role: on first access the first matching
    /// child is claimed out of the unresolved list and cached; later accesses
    /// return the cache untouched. A missing child is `MissingRequiredChild`.
    pub fn mdia(&mut self) -> (r: Result<Reference<Mdia>, ParseError>)
        ensures
            match old(self).mdia {
                InternalElement::Searched(v) => *final(self) == *old(self) && (r matches Ok(x)
                    && x == v),
                InternalElement::NotSearched => ({
                    let s = old(self).unparsed_atoms@;
                    let i = first_match(s, MDIA);
                    if i >= 0 {
                        &&& r matches Ok(x) && x.offset == s[i].offset && x.len == s[i].len
                            && final(self).mdia == InternalElement::Searched(x)
                        &&& final(self).unparsed_atoms@ == s.remove(i)
                        &&& final(self).track_header == old(self).track_header &&& final(self).tapt == old(self).tapt &&& final(self).matt == old(self).matt &&& final(self).edts == old(self).edts &&& final(self).tref == old(self).tref &&& final(self).txas == old(self).txas &&& final(self).load == old(self).load &&& final(self).imap == old(self).imap
                    } else {
                        &&& r matches Err(e) && e == ParseError::MissingRequiredChild
                        &&& *final(self) == *old(self)
                    }
                }),
            },
    {
        match &self.mdia {
            InternalElement::Searched(v) => {
                return Ok(*v);
            },
            InternalElement::NotSearched => {},
        }
        match take_first_match(&mut self.unparsed_atoms, MDIA) {
            Some(a) => {
                let x: Reference<Mdia> = Reference::new(a.offset, a.len);
                self.mdia = InternalElement::Searched(x);
                Ok(x)
            },
            None => Err(ParseError::MissingRequiredChild),
        }
    }

}

} // verus!
