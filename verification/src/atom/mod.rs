use vstd::prelude::*;

pub mod header;
pub mod media_data_type;
pub mod sample_table;
pub mod track;

use crate::data_structures::{is_valid_utf8, is_valid_utf8_from, spec_matrix_at, Matrix};
use crate::error::ParseError;
use crate::reader::{be_u16_at, be_u32_at};
use crate::reference::{Reference, SpecReference};
use crate::{
    frame_peek_len, parse_elems_until, read_fill, read_leaf_frame, spec_atom_len, spec_fill,
    spec_frame_peek_len, spec_leaf_frame, spec_parse_elems_until, Mp4, Parse, PeekLen,
};

use self::header::{
    Header, ALIS, CLEF, CLIP, CMOV, CRGN, CSLG, CTAB, CTTS, DINF, DREF, ELNG, ENOF, FTYP, GMHD,
    GMIN, HDLR, KMAT, MDAT, MDHD, MINF, MVHD, OBID, PRFL, PROF, RDRF, RMCD, RMCS, RMDA, RMDR,
    RMQU, RMRA, RMVC, RSRC, SBGP, SDTP, SGPD, SMHD, SSRC, STBL, STCO, STPS, STSC, STSD, STSS,
    STSH, STSZ, STTS, TEXT, TRAK, UDTA, URL, VMHD,
};
use self::media_data_type::BaseSampleDescriptionTable;
use self::sample_table::{Cslg, Ctts, Sbgp, Sdtp, Sgpd, Stco, Stps, Stsc, Stsh, Stss, Stsz, Stts};
use self::track::Trak;

verus! {

/// What a fieldless leaf atom's parse yields at `pos`: its frame is read and
/// checked, nothing else is consumed, so the framing law demands a declared
/// length of exactly 8.
pub open spec fn spec_empty_leaf(b: Seq<u8>, pos: int, tag: u32) -> Result<int, ParseError> {
    match spec_leaf_frame(b, pos, tag) {
        Err(e) => Err(e),
        Ok(l) => {
            if l != 8 {
                Err(ParseError::FramingViolation)
            } else {
                Ok(pos + 8)
            }
        },
    }
}

/// Consumes a fieldless leaf atom: its frame, then the framing check.
fn parse_empty_leaf(mp4: &mut Mp4, tag: u32) -> (r: Result<(), ParseError>)
    requires
        old(mp4).wf(),
    ensures
        final(mp4).wf(),
        final(mp4).bytes() == old(mp4).bytes(),
        match spec_empty_leaf(old(mp4).bytes(), old(mp4).pos(), tag) {
            Ok(end) => r matches Ok(v) && final(mp4).pos() == end,
            Err(e) => r matches Err(e2) && e2 == e,
        },
{
    let l = match read_leaf_frame(mp4, tag) {
        Ok(v) => v,
        Err(e) => {
            return Err(e);
        },
    };
    if l != 8 {
        return Err(ParseError::FramingViolation);
    }
    Ok(())
}

/// A child atom discovered while scanning a container's body but not yet
/// interpreted: its absolute offset, its declared length, and its type tag.
/// Owned exclusively by the container that discovered it until a role claims
/// it.
#[derive(Debug, Clone, Copy, PartialEq, Eq)]
pub struct UnparsedAtom {
    pub offset: usize,
    pub len: usize,
    pub header: Header,
}

impl DeepView for UnparsedAtom {
    type V = UnparsedAtom;

    open spec fn deep_view(&self) -> UnparsedAtom {
        *self
    }
}

impl Parse for UnparsedAtom {
    /// Tokenizing one child reads its frame and tag, then skips exactly its
    /// declared length; the child's content is not interpreted.
    open spec fn spec_parse(b: Seq<u8>, pos: int) -> Result<(UnparsedAtom, int), ParseError> {
        match spec_atom_len(b, pos) {
            Err(e) => Err(e),
            Ok(l) => {
                if pos + 8 > b.len() {
                    Err(ParseError::Truncated)
                } else if l < 8 {
                    Err(ParseError::FramingViolation)
                } else if pos + l > b.len() {
                    Err(ParseError::Truncated)
                } else {
                    Ok(
                        (
                            UnparsedAtom {
                                offset: pos as usize,
                                len: l as usize,
                                header: Header(be_u32_at(b, pos + 4) as u32),
                            },
                            pos + l,
                        ),
                    )
                }
            },
        }
    }

    fn parse(mp4: &mut Mp4) -> (r: Result<UnparsedAtom, ParseError>) {
        let offset = mp4.position();
        let l = match mp4.read_atom_len() {
            Ok(v) => v,
            Err(e) => {
                return Err(e);
            },
        };
        let tag = match mp4.reader.read_u32() {
            Ok(v) => v,
            Err(e) => {
                return Err(e);
            },
        };
        if l < 8 {
            return Err(ParseError::FramingViolation);
        }
        let avail = mp4.reader.source_len() - offset;
        if l > avail {
            return Err(ParseError::Truncated);
        }
        match mp4.jump_to(offset + l) {
            Ok(v) => {},
            Err(e) => {
                return Err(e);
            },
        }
        Ok(UnparsedAtom { offset, len: l, header: Header(tag) })
    }
}

impl UnparsedAtom {
    /// Claims this child for a role: repackages its location as a typed
    /// deferred-parse handle.
    pub fn into_ref<P: Parse>(self) -> (r: Reference<P>)
        ensures
            r.offset == self.offset,
            r.len == self.len,
    {
        Reference::new(self.offset, self.len)
    }
}

/// One role's resolution cache: `NotSearched` until the role is first asked
/// for, then `Searched` with whatever the search found. Kept distinct from a
/// nullable value so that "not yet searched" and "searched, absent" cannot be
/// confused.
#[derive(Debug, Clone, Copy, PartialEq, Eq)]
pub enum InternalElement<T> {
    Searched(T),
    NotSearched,
}

impl<T: DeepView> DeepView for InternalElement<T> {
    type V = InternalElement<T::V>;

    open spec fn deep_view(&self) -> InternalElement<T::V> {
        match self {
            InternalElement::Searched(v) => InternalElement::Searched(v.deep_view()),
            InternalElement::NotSearched => InternalElement::NotSearched,
        }
    }
}

/// The index of the first entry of `s` whose tag is `tag`, or -1 when none
/// matches.
pub open spec fn first_match(s: Seq<UnparsedAtom>, tag: u32) -> int
    decreases s.len(),
{
    if s.len() == 0 {
        -1
    } else if s[0].header.0 == tag {
        0
    } else {
        let rest = first_match(s.skip(1), tag);
        if rest < 0 {
            -1
        } else {
            rest + 1
        }
    }
}

/// `first_match` names the first matching index: the entry there matches, no
/// earlier entry does, and -1 means no entry matches at all.
pub proof fn lemma_first_match(s: Seq<UnparsedAtom>, tag: u32)
    ensures
        ({
            let i = first_match(s, tag);
            &&& i >= -1
            &&& i >= 0 ==> 0 <= i < s.len() && s[i].header.0 == tag && (forall|j: int|
                0 <= j < i ==> s[j].header.0 != tag)
            &&& i < 0 ==> forall|j: int| 0 <= j < s.len() ==> s[j].header.0 != tag
        }),
    decreases s.len(),
{
    if s.len() == 0 {
    } else if s[0].header.0 == tag {
    } else {
        lemma_first_match(s.skip(1), tag);
        assert(forall|j: int| 0 <= j < s.skip(1).len() ==> #[trigger] s.skip(1)[j] == s[j + 1]);
        let i = first_match(s, tag);
        if i >= 0 {
            assert(s[i] == s.skip(1)[i - 1]);
            assert forall|j: int| 0 <= j < i implies s[j].header.0 != tag by {
                if j >= 1 {
                    assert(s[j] == s.skip(1)[j - 1]);
                }
            }
        } else {
            assert forall|j: int| 0 <= j < s.len() implies s[j].header.0 != tag by {
                if j >= 1 {
                    assert(s[j] == s.skip(1)[j - 1]);
                }
            }
        }
    }
}

/// Removes and returns the first entry whose tag is `tag`; every other entry
/// keeps its place and its order.
pub fn take_first_match(atoms: &mut Vec<UnparsedAtom>, tag: u32) -> (r: Option<UnparsedAtom>)
    ensures
        ({
            let i = first_match(old(atoms)@, tag);
            &&& i >= 0 ==> (r matches Some(a) && a == old(atoms)@[i] && final(atoms)@ == old(
                atoms,
            )@.remove(i))
            &&& i < 0 ==> r is None && *final(atoms) == *old(atoms)
        }),
{
    let mut j: usize = 0;
    while j < atoms.len()
        invariant
            *atoms == *old(atoms),
            j <= atoms@.len(),
            forall|k: int| 0 <= k < j ==> atoms@[k].header.0 != tag,
        decreases atoms@.len() - j,
    {
        if atoms[j].header.0 == tag {
            let a = atoms[j];
            proof {
                lemma_first_match(atoms@, tag);
            }
            atoms.remove(j);
            return Some(a);
        }
        j = j + 1;
    }
    proof {
        lemma_first_match(atoms@, tag);
    }
    None
}

/// Removes and returns every entry whose tag is `tag`, in discovery order;
/// the entries that remain keep their order.
pub fn take_all_matches(atoms: &mut Vec<UnparsedAtom>, tag: u32) -> (r: Vec<UnparsedAtom>)
    ensures
        r@ == old(atoms)@.filter(|a: UnparsedAtom| a.header.0 == tag),
        final(atoms)@ == old(atoms)@.filter(|a: UnparsedAtom| a.header.0 != tag),
{
    let mut kept: Vec<UnparsedAtom> = Vec::new();
    let mut got: Vec<UnparsedAtom> = Vec::new();
    let mut j: usize = 0;
    while j < atoms.len()
        invariant
            atoms@ == old(atoms)@,
            j <= atoms@.len(),
            got@ == atoms@.subrange(0, j as int).filter(|a: UnparsedAtom| a.header.0 == tag),
            kept@ == atoms@.subrange(0, j as int).filter(|a: UnparsedAtom| a.header.0 != tag),
        decreases atoms@.len() - j,
    {
        let a = atoms[j];
        proof {
            reveal(Seq::filter);
            assert(atoms@.subrange(0, j as int + 1).drop_last() =~= atoms@.subrange(0, j as int));
            assert(atoms@.subrange(0, j as int + 1).last() == a);
        }
        if a.header.0 == tag {
            got.push(a);
        } else {
            kept.push(a);
        }
        j = j + 1;
    }
    proof {
        reveal(Seq::filter);
        assert(atoms@.subrange(0, atoms@.len() as int) =~= atoms@);
    }
    *atoms = kept;
    got
}

/// Copies a vector of copyable values element by element.
pub fn copied<T: Copy>(v: &Vec<T>) -> (r: Vec<T>)
    ensures
        r@ == v@,
{
    let mut out: Vec<T> = Vec::new();
    let mut j: usize = 0;
    while j < v.len()
        invariant
            j <= v@.len(),
            out@ == v@.subrange(0, j as int),
        decreases v@.len() - j,
    {
        out.push(v[j]);
        proof {
            assert(out@ =~= v@.subrange(0, j as int + 1));
        }
        j = j + 1;
    }
    proof {
        assert(v@.subrange(0, v@.len() as int) =~= v@);
    }
    out
}

/// The frame discipline shared by every container atom: a validated length
/// field, 4 tag bytes read verbatim, a declared length that at least covers
/// the 8 header bytes, and an extent that lies within the source.
pub open spec fn spec_container_frame(b: Seq<u8>, pos: int) -> Result<int, ParseError> {
    match spec_atom_len(b, pos) {
        Err(e) => Err(e),
        Ok(l) => {
            if pos + 8 > b.len() {
                Err(ParseError::Truncated)
            } else if l < 8 {
                Err(ParseError::FramingViolation)
            } else if pos + l > b.len() {
                Err(ParseError::Truncated)
            } else {
                Ok(l)
            }
        },
    }
}

/// What tokenizing a container's body yields at `pos`: the frame, then the
/// children scanned back to back until exactly the container's declared end.
pub open spec fn spec_container_body(b: Seq<u8>, pos: int) -> Result<
    (Seq<UnparsedAtom>, int),
    ParseError,
> {
    match spec_container_frame(b, pos) {
        Err(e) => Err(e),
        Ok(l) => spec_parse_elems_until::<UnparsedAtom>(b, pos + 8, pos + l),
    }
}

/// Tokenizes a container atom's body into its unresolved children: reads the
/// frame, then scans one child frame after another, skipping each child's
/// declared length, until the container's declared end is reached exactly.
pub fn parse_container_body(mp4: &mut Mp4) -> (r: Result<Vec<UnparsedAtom>, ParseError>)
    requires
        old(mp4).wf(),
    ensures
        final(mp4).wf(),
        final(mp4).bytes() == old(mp4).bytes(),
        match spec_container_body(old(mp4).bytes(), old(mp4).pos()) {
            Ok(rs) => r matches Ok(v) && v.deep_view() == rs.0 && final(mp4).pos() == rs.1,
            Err(e) => r matches Err(e2) && e2 == e,
        },
{
    let start = mp4.position();
    let l = match mp4.read_atom_len() {
        Ok(v) => v,
        Err(e) => {
            return Err(e);
        },
    };
    let tag = match mp4.reader.read_u32() {
        Ok(v) => v,
        Err(e) => {
            return Err(e);
        },
    };
    if l < 8 {
        return Err(ParseError::FramingViolation);
    }
    let avail = mp4.reader.source_len() - start;
    if l > avail {
        return Err(ParseError::Truncated);
    }
    parse_elems_until::<UnparsedAtom>(mp4, start + l)
}

/// The `clip` atom: no fields of its own; well-formed only as a bare 8-byte
/// frame.
#[derive(Debug, Clone, Copy, PartialEq, Eq)]
pub struct Clip {}

impl DeepView for Clip {
    type V = Clip;

    open spec fn deep_view(&self) -> Clip {
        *self
    }
}

impl Parse for Clip {
    open spec fn spec_parse(b: Seq<u8>, pos: int) -> Result<(Clip, int), ParseError> {
        match spec_empty_leaf(b, pos, CLIP) {
            Err(e) => Err(e),
            Ok(end) => Ok((Clip {}, end)),
        }
    }

    fn parse(mp4: &mut Mp4) -> (r: Result<Clip, ParseError>) {
        match parse_empty_leaf(mp4, CLIP) {
            Ok(v) => Ok(Clip {}),
            Err(e) => Err(e),
        }
    }
}

/// The `udta` atom: no fields of its own; well-formed only as a bare 8-byte
/// frame.
#[derive(Debug, Clone, Copy, PartialEq, Eq)]
pub struct Udta {}

impl DeepView for Udta {
    type V = Udta;

    open spec fn deep_view(&self) -> Udta {
        *self
    }
}

impl Parse for Udta {
    open spec fn spec_parse(b: Seq<u8>, pos: int) -> Result<(Udta, int), ParseError> {
        match spec_empty_leaf(b, pos, UDTA) {
            Err(e) => Err(e),
            Ok(end) => Ok((Udta {}, end)),
        }
    }

    fn parse(mp4: &mut Mp4) -> (r: Result<Udta, ParseError>) {
        match parse_empty_leaf(mp4, UDTA) {
            Ok(v) => Ok(Udta {}),
            Err(e) => Err(e),
        }
    }
}

/// The `cmov` atom: no fields of its own; well-formed only as a bare 8-byte
/// frame.
#[derive(Debug, Clone, Copy, PartialEq, Eq)]
pub struct Cmov {}

impl DeepView for Cmov {
    type V = Cmov;

    open spec fn deep_view(&self) -> Cmov {
        *self
    }
}

impl Parse for Cmov {
    open spec fn spec_parse(b: Seq<u8>, pos: int) -> Result<(Cmov, int), ParseError> {
        match spec_empty_leaf(b, pos, CMOV) {
            Err(e) => Err(e),
            Ok(end) => Ok((Cmov {}, end)),
        }
    }

    fn parse(mp4: &mut Mp4) -> (r: Result<Cmov, ParseError>) {
        match parse_empty_leaf(mp4, CMOV) {
            Ok(v) => Ok(Cmov {}),
            Err(e) => Err(e),
        }
    }
}

/// The `prfl` atom: no fields of its own; well-formed only as a bare 8-byte
/// frame.
#[derive(Debug, Clone, Copy, PartialEq, Eq)]
pub struct Prfl {}

impl DeepView for Prfl {
    type V = Prfl;

    open spec fn deep_view(&self) -> Prfl {
        *self
    }
}

impl Parse for Prfl {
    open spec fn spec_parse(b: Seq<u8>, pos: int) -> Result<(Prfl, int), ParseError> {
        match spec_empty_leaf(b, pos, PRFL) {
            Err(e) => Err(e),
            Ok(end) => Ok((Prfl {}, end)),
        }
    }

    fn parse(mp4: &mut Mp4) -> (r: Result<Prfl, ParseError>) {
        match parse_empty_leaf(mp4, PRFL) {
            Ok(v) => Ok(Prfl {}),
            Err(e) => Err(e),
        }
    }
}

/// The `elng` atom: no fields of its own; well-formed only as a bare 8-byte
/// frame.
#[derive(Debug, Clone, Copy, PartialEq, Eq)]
pub struct Elng {}

impl DeepView for Elng {
    type V = Elng;

    open spec fn deep_view(&self) -> Elng {
        *self
    }
}

impl Parse for Elng {
    open spec fn spec_parse(b: Seq<u8>, pos: int) -> Result<(Elng, int), ParseError> {
        match spec_empty_leaf(b, pos, ELNG) {
            Err(e) => Err(e),
            Ok(end) => Ok((Elng {}, end)),
        }
    }

    fn parse(mp4: &mut Mp4) -> (r: Result<Elng, ParseError>) {
        match parse_empty_leaf(mp4, ELNG) {
            Ok(v) => Ok(Elng {}),
            Err(e) => Err(e),
        }
    }
}

/// The `gmhd` atom: no fields of its own; well-formed only as a bare 8-byte
/// frame.
#[derive(Debug, Clone, Copy, PartialEq, Eq)]
pub struct Gmhd {}

impl DeepView for Gmhd {
    type V = Gmhd;

    open spec fn deep_view(&self) -> Gmhd {
        *self
    }
}

impl Parse for Gmhd {
    open spec fn spec_parse(b: Seq<u8>, pos: int) -> Result<(Gmhd, int), ParseError> {
        match spec_empty_leaf(b, pos, GMHD) {
            Err(e) => Err(e),
            Ok(end) => Ok((Gmhd {}, end)),
        }
    }

    fn parse(mp4: &mut Mp4) -> (r: Result<Gmhd, ParseError>) {
        match parse_empty_leaf(mp4, GMHD) {
            Ok(v) => Ok(Gmhd {}),
            Err(e) => Err(e),
        }
    }
}

/// The `gmin` atom: no fields of its own; well-formed only as a bare 8-byte
/// frame.
#[derive(Debug, Clone, Copy, PartialEq, Eq)]
pub struct Gmin {}

impl DeepView for Gmin {
    type V = Gmin;

    open spec fn deep_view(&self) -> Gmin {
        *self
    }
}

impl Parse for Gmin {
    open spec fn spec_parse(b: Seq<u8>, pos: int) -> Result<(Gmin, int), ParseError> {
        match spec_empty_leaf(b, pos, GMIN) {
            Err(e) => Err(e),
            Ok(end) => Ok((Gmin {}, end)),
        }
    }

    fn parse(mp4: &mut Mp4) -> (r: Result<Gmin, ParseError>) {
        match parse_empty_leaf(mp4, GMIN) {
            Ok(v) => Ok(Gmin {}),
            Err(e) => Err(e),
        }
    }
}

/// The `text` atom: no fields of its own; well-formed only as a bare 8-byte
/// frame.
#[derive(Debug, Clone, Copy, PartialEq, Eq)]
pub struct Text {}

impl DeepView for Text {
    type V = Text;

    open spec fn deep_view(&self) -> Text {
        *self
    }
}

impl Parse for Text {
    open spec fn spec_parse(b: Seq<u8>, pos: int) -> Result<(Text, int), ParseError> {
        match spec_empty_leaf(b, pos, TEXT) {
            Err(e) => Err(e),
            Ok(end) => Ok((Text {}, end)),
        }
    }

    fn parse(mp4: &mut Mp4) -> (r: Result<Text, ParseError>) {
        match parse_empty_leaf(mp4, TEXT) {
            Ok(v) => Ok(Text {}),
            Err(e) => Err(e),
        }
    }
}

/// The `rdrf` atom: no fields of its own; well-formed only as a bare 8-byte
/// frame.
#[derive(Debug, Clone, Copy, PartialEq, Eq)]
pub struct Rdrf {}

impl DeepView for Rdrf {
    type V = Rdrf;

    open spec fn deep_view(&self) -> Rdrf {
        *self
    }
}

impl Parse for Rdrf {
    open spec fn spec_parse(b: Seq<u8>, pos: int) -> Result<(Rdrf, int), ParseError> {
        match spec_empty_leaf(b, pos, RDRF) {
            Err(e) => Err(e),
            Ok(end) => Ok((Rdrf {}, end)),
        }
    }

    fn parse(mp4: &mut Mp4) -> (r: Result<Rdrf, ParseError>) {
        match parse_empty_leaf(mp4, RDRF) {
            Ok(v) => Ok(Rdrf {}),
            Err(e) => Err(e),
        }
    }
}

/// The `rmdr` atom: no fields of its own; well-formed only as a bare 8-byte
/// frame.
#[derive(Debug, Clone, Copy, PartialEq, Eq)]
pub struct Rmdr {}

impl DeepView for Rmdr {
    type V = Rmdr;

    open spec fn deep_view(&self) -> Rmdr {
        *self
    }
}

impl Parse for Rmdr {
    open spec fn spec_parse(b: Seq<u8>, pos: int) -> Result<(Rmdr, int), ParseError> {
        match spec_empty_leaf(b, pos, RMDR) {
            Err(e) => Err(e),
            Ok(end) => Ok((Rmdr {}, end)),
        }
    }

    fn parse(mp4: &mut Mp4) -> (r: Result<Rmdr, ParseError>) {
        match parse_empty_leaf(mp4, RMDR) {
            Ok(v) => Ok(Rmdr {}),
            Err(e) => Err(e),
        }
    }
}

/// The `rmcs` atom: no fields of its own; well-formed only as a bare 8-byte
/// frame.
#[derive(Debug, Clone, Copy, PartialEq, Eq)]
pub struct Rmcs {}

impl DeepView for Rmcs {
    type V = Rmcs;

    open spec fn deep_view(&self) -> Rmcs {
        *self
    }
}

impl Parse for Rmcs {
    open spec fn spec_parse(b: Seq<u8>, pos: int) -> Result<(Rmcs, int), ParseError> {
        match spec_empty_leaf(b, pos, RMCS) {
            Err(e) => Err(e),
            Ok(end) => Ok((Rmcs {}, end)),
        }
    }

    fn parse(mp4: &mut Mp4) -> (r: Result<Rmcs, ParseError>) {
        match parse_empty_leaf(mp4, RMCS) {
            Ok(v) => Ok(Rmcs {}),
            Err(e) => Err(e),
        }
    }
}

/// The `rmvc` atom: no fields of its own; well-formed only as a bare 8-byte
/// frame.
#[derive(Debug, Clone, Copy, PartialEq, Eq)]
pub struct Rmvc {}

impl DeepView for Rmvc {
    type V = Rmvc;

    open spec fn deep_view(&self) -> Rmvc {
        *self
    }
}

impl Parse for Rmvc {
    open spec fn spec_parse(b: Seq<u8>, pos: int) -> Result<(Rmvc, int), ParseError> {
        match spec_empty_leaf(b, pos, RMVC) {
            Err(e) => Err(e),
            Ok(end) => Ok((Rmvc {}, end)),
        }
    }

    fn parse(mp4: &mut Mp4) -> (r: Result<Rmvc, ParseError>) {
        match parse_empty_leaf(mp4, RMVC) {
            Ok(v) => Ok(Rmvc {}),
            Err(e) => Err(e),
        }
    }
}

/// The `rmcd` atom: no fields of its own; well-formed only as a bare 8-byte
/// frame.
#[derive(Debug, Clone, Copy, PartialEq, Eq)]
pub struct Rmcd {}

impl DeepView for Rmcd {
    type V = Rmcd;

    open spec fn deep_view(&self) -> Rmcd {
        *self
    }
}

impl Parse for Rmcd {
    open spec fn spec_parse(b: Seq<u8>, pos: int) -> Result<(Rmcd, int), ParseError> {
        match spec_empty_leaf(b, pos, RMCD) {
            Err(e) => Err(e),
            Ok(end) => Ok((Rmcd {}, end)),
        }
    }

    fn parse(mp4: &mut Mp4) -> (r: Result<Rmcd, ParseError>) {
        match parse_empty_leaf(mp4, RMCD) {
            Ok(v) => Ok(Rmcd {}),
            Err(e) => Err(e),
        }
    }
}

/// The `rmqu` atom: no fields of its own; well-formed only as a bare 8-byte
/// frame.
#[derive(Debug, Clone, Copy, PartialEq, Eq)]
pub struct Rmqu {}

impl DeepView for Rmqu {
    type V = Rmqu;

    open spec fn deep_view(&self) -> Rmqu {
        *self
    }
}

impl Parse for Rmqu {
    open spec fn spec_parse(b: Seq<u8>, pos: int) -> Result<(Rmqu, int), ParseError> {
        match spec_empty_leaf(b, pos, RMQU) {
            Err(e) => Err(e),
            Ok(end) => Ok((Rmqu {}, end)),
        }
    }

    fn parse(mp4: &mut Mp4) -> (r: Result<Rmqu, ParseError>) {
        match parse_empty_leaf(mp4, RMQU) {
            Ok(v) => Ok(Rmqu {}),
            Err(e) => Err(e),
        }
    }
}

/// The `crgn` atom: no fields of its own; well-formed only as a bare 8-byte
/// frame.
#[derive(Debug, Clone, Copy, PartialEq, Eq)]
pub struct Crgn {}

impl DeepView for Crgn {
    type V = Crgn;

    open spec fn deep_view(&self) -> Crgn {
        *self
    }
}

impl Parse for Crgn {
    open spec fn spec_parse(b: Seq<u8>, pos: int) -> Result<(Crgn, int), ParseError> {
        match spec_empty_leaf(b, pos, CRGN) {
            Err(e) => Err(e),
            Ok(end) => Ok((Crgn {}, end)),
        }
    }

    fn parse(mp4: &mut Mp4) -> (r: Result<Crgn, ParseError>) {
        match parse_empty_leaf(mp4, CRGN) {
            Ok(v) => Ok(Crgn {}),
            Err(e) => Err(e),
        }
    }
}

/// The `kmat` atom: no fields of its own; well-formed only as a bare 8-byte
/// frame.
#[derive(Debug, Clone, Copy, PartialEq, Eq)]
pub struct Kmat {}

impl DeepView for Kmat {
    type V = Kmat;

    open spec fn deep_view(&self) -> Kmat {
        *self
    }
}

impl Parse for Kmat {
    open spec fn spec_parse(b: Seq<u8>, pos: int) -> Result<(Kmat, int), ParseError> {
        match spec_empty_leaf(b, pos, KMAT) {
            Err(e) => Err(e),
            Ok(end) => Ok((Kmat {}, end)),
        }
    }

    fn parse(mp4: &mut Mp4) -> (r: Result<Kmat, ParseError>) {
        match parse_empty_leaf(mp4, KMAT) {
            Ok(v) => Ok(Kmat {}),
            Err(e) => Err(e),
        }
    }
}

/// The `clef` atom: no fields of its own; well-formed only as a bare 8-byte
/// frame.
#[derive(Debug, Clone, Copy, PartialEq, Eq)]
pub struct Clef {}

impl DeepView for Clef {
    type V = Clef;

    open spec fn deep_view(&self) -> Clef {
        *self
    }
}

impl Parse for Clef {
    open spec fn spec_parse(b: Seq<u8>, pos: int) -> Result<(Clef, int), ParseError> {
        match spec_empty_leaf(b, pos, CLEF) {
            Err(e) => Err(e),
            Ok(end) => Ok((Clef {}, end)),
        }
    }

    fn parse(mp4: &mut Mp4) -> (r: Result<Clef, ParseError>) {
        match parse_empty_leaf(mp4, CLEF) {
            Ok(v) => Ok(Clef {}),
            Err(e) => Err(e),
        }
    }
}

/// The `prof` atom: no fields of its own; well-formed only as a bare 8-byte
/// frame.
#[derive(Debug, Clone, Copy, PartialEq, Eq)]
pub struct Prof {}

impl DeepView for Prof {
    type V = Prof;

    open spec fn deep_view(&self) -> Prof {
        *self
    }
}

impl Parse for Prof {
    open spec fn spec_parse(b: Seq<u8>, pos: int) -> Result<(Prof, int), ParseError> {
        match spec_empty_leaf(b, pos, PROF) {
            Err(e) => Err(e),
            Ok(end) => Ok((Prof {}, end)),
        }
    }

    fn parse(mp4: &mut Mp4) -> (r: Result<Prof, ParseError>) {
        match parse_empty_leaf(mp4, PROF) {
            Ok(v) => Ok(Prof {}),
            Err(e) => Err(e),
        }
    }
}

/// The `enof` atom: no fields of its own; well-formed only as a bare 8-byte
/// frame.
#[derive(Debug, Clone, Copy, PartialEq, Eq)]
pub struct Enof {}

impl DeepView for Enof {
    type V = Enof;

    open spec fn deep_view(&self) -> Enof {
        *self
    }
}

impl Parse for Enof {
    open spec fn spec_parse(b: Seq<u8>, pos: int) -> Result<(Enof, int), ParseError> {
        match spec_empty_leaf(b, pos, ENOF) {
            Err(e) => Err(e),
            Ok(end) => Ok((Enof {}, end)),
        }
    }

    fn parse(mp4: &mut Mp4) -> (r: Result<Enof, ParseError>) {
        match parse_empty_leaf(mp4, ENOF) {
            Ok(v) => Ok(Enof {}),
            Err(e) => Err(e),
        }
    }
}

/// The `ssrc` atom: no fields of its own; well-formed only as a bare 8-byte
/// frame.
#[derive(Debug, Clone, Copy, PartialEq, Eq)]
pub struct Ssrc {}

impl DeepView for Ssrc {
    type V = Ssrc;

    open spec fn deep_view(&self) -> Ssrc {
        *self
    }
}

impl Parse for Ssrc {
    open spec fn spec_parse(b: Seq<u8>, pos: int) -> Result<(Ssrc, int), ParseError> {
        match spec_empty_leaf(b, pos, SSRC) {
            Err(e) => Err(e),
            Ok(end) => Ok((Ssrc {}, end)),
        }
    }

    fn parse(mp4: &mut Mp4) -> (r: Result<Ssrc, ParseError>) {
        match parse_empty_leaf(mp4, SSRC) {
            Ok(v) => Ok(Ssrc {}),
            Err(e) => Err(e),
        }
    }
}

/// The `obid` atom: no fields of its own; well-formed only as a bare 8-byte
/// frame.
#[derive(Debug, Clone, Copy, PartialEq, Eq)]
pub struct Obid {}

impl DeepView for Obid {
    type V = Obid;

    open spec fn deep_view(&self) -> Obid {
        *self
    }
}

impl Parse for Obid {
    open spec fn spec_parse(b: Seq<u8>, pos: int) -> Result<(Obid, int), ParseError> {
        match spec_empty_leaf(b, pos, OBID) {
            Err(e) => Err(e),
            Ok(end) => Ok((Obid {}, end)),
        }
    }

    fn parse(mp4: &mut Mp4) -> (r: Result<Obid, ParseError>) {
        match parse_empty_leaf(mp4, OBID) {
            Ok(v) => Ok(Obid {}),
            Err(e) => Err(e),
        }
    }
}

/// The `mdhd` media header: characteristics of one track's media, such as its
/// time scale and duration.
#[derive(Debug, Clone, PartialEq, Eq)]
pub struct Mdhd {
    pub version: u8,
    pub flags: Vec<u8>,
    pub creation_time: u32,
    pub modification_time: u32,
    pub time_scale: u32,
    pub duration: u32,
    pub language: u16,
    pub quality: u16,
}

/// The ghost content of an `Mdhd`.
pub struct SpecMdhd {
    pub version: u8,
    pub flags: Seq<u8>,
    pub creation_time: u32,
    pub modification_time: u32,
    pub time_scale: u32,
    pub duration: u32,
    pub language: u16,
    pub quality: u16,
}

impl DeepView for Mdhd {
    type V = SpecMdhd;

    open spec fn deep_view(&self) -> SpecMdhd {
        SpecMdhd {
            version: self.version,
            flags: self.flags@,
            creation_time: self.creation_time,
            modification_time: self.modification_time,
            time_scale: self.time_scale,
            duration: self.duration,
            language: self.language,
            quality: self.quality,
        }
    }
}

impl Parse for Mdhd {
    open spec fn spec_parse(b: Seq<u8>, pos: int) -> Result<(SpecMdhd, int), ParseError> {
        match spec_leaf_frame(b, pos, MDHD) {
            Err(e) => Err(e),
            Ok(l) => {
                if pos + 32 > b.len() {
                    Err(ParseError::Truncated)
                } else if l != 32 {
                    Err(ParseError::FramingViolation)
                } else {
                    Ok(
                        (
                            SpecMdhd {
                                version: b[pos + 8],
                                flags: b.subrange(pos + 9, pos + 12),
                                creation_time: be_u32_at(b, pos + 12) as u32,
                                modification_time: be_u32_at(b, pos + 16) as u32,
                                time_scale: be_u32_at(b, pos + 20) as u32,
                                duration: be_u32_at(b, pos + 24) as u32,
                                language: be_u16_at(b, pos + 28) as u16,
                                quality: be_u16_at(b, pos + 30) as u16,
                            },
                            pos + 32,
                        ),
                    )
                }
            },
        }
    }

    fn parse(mp4: &mut Mp4) -> (r: Result<Mdhd, ParseError>) {
        let start = mp4.position();
        let l = match read_leaf_frame(mp4, MDHD) {
            Ok(v) => v,
            Err(e) => {
                return Err(e);
            },
        };
        let version = match mp4.reader.read_u8() {
            Ok(v) => v,
            Err(e) => {
                return Err(e);
            },
        };
        let flags = match mp4.reader.read_bytes_dyn(3) {
            Ok(v) => v,
            Err(e) => {
                return Err(e);
            },
        };
        let creation_time = match mp4.reader.read_u32() {
            Ok(v) => v,
            Err(e) => {
                return Err(e);
            },
        };
        let modification_time = match mp4.reader.read_u32() {
            Ok(v) => v,
            Err(e) => {
                return Err(e);
            },
        };
        let time_scale = match mp4.reader.read_u32() {
            Ok(v) => v,
            Err(e) => {
                return Err(e);
            },
        };
        let duration = match mp4.reader.read_u32() {
            Ok(v) => v,
            Err(e) => {
                return Err(e);
            },
        };
        let language = match mp4.reader.read_u16() {
            Ok(v) => v,
            Err(e) => {
                return Err(e);
            },
        };
        let quality = match mp4.reader.read_u16() {
            Ok(v) => v,
            Err(e) => {
                return Err(e);
            },
        };
        if mp4.position() != start + l {
            return Err(ParseError::FramingViolation);
        }
        Ok(
            Mdhd {
                version,
                flags,
                creation_time,
                modification_time,
                time_scale,
                duration,
                language,
                quality,
            },
        )
    }
}

impl Mdhd {
    /// Converts a wall-clock duration in whole seconds into this media's time
    /// coordinate system.
    pub fn convert_to_media_time(&self, seconds: u64) -> (r: u64)
        requires
            seconds * self.time_scale <= u64::MAX,
        ensures
            r == seconds * self.time_scale,
    {
        seconds * (self.time_scale as u64)
    }
}

/// The `ctab` color table atom.
#[derive(Debug, Clone, PartialEq, Eq)]
pub struct Ctab {
    pub seed: u32,
    pub flags: u16,
    pub size: u16,
    pub color: Vec<u16>,
}

/// The ghost content of a `Ctab`.
pub struct SpecCtab {
    pub seed: u32,
    pub flags: u16,
    pub size: u16,
    pub color: Seq<u16>,
}

impl DeepView for Ctab {
    type V = SpecCtab;

    open spec fn deep_view(&self) -> SpecCtab {
        SpecCtab {
            seed: self.seed,
            flags: self.flags,
            size: self.size,
            color: self.color.deep_view(),
        }
    }
}

impl Parse for Ctab {
    open spec fn spec_parse(b: Seq<u8>, pos: int) -> Result<(SpecCtab, int), ParseError> {
        match spec_leaf_frame(b, pos, CTAB) {
            Err(e) => Err(e),
            Ok(l) => {
                if pos + 16 > b.len() {
                    Err(ParseError::Truncated)
                } else {
                    match spec_parse_elems_until::<u16>(b, pos + 16, pos + l) {
                        Err(e) => Err(e),
                        Ok(rs) => {
                            if rs.1 != pos + l {
                                Err(ParseError::FramingViolation)
                            } else {
                                Ok((SpecCtab { seed: be_u32_at(b, pos + 8) as u32, flags: be_u16_at(b, pos + 12) as u16, size: be_u16_at(b, pos + 14) as u16, color: rs.0 }, pos + l))
                            }
                        },
                    }
                }
            },
        }
    }

    fn parse(mp4: &mut Mp4) -> (r: Result<Ctab, ParseError>) {
        let start = mp4.position();
        let l = match read_leaf_frame(mp4, CTAB) {
            Ok(v) => v,
            Err(e) => {
                return Err(e);
            },
        };
        let end = start + l;
        let seed = match mp4.reader.read_u32() {
            Ok(v) => v,
            Err(e) => {
                return Err(e);
            },
        };
        let flags = match mp4.reader.read_u16() {
            Ok(v) => v,
            Err(e) => {
                return Err(e);
            },
        };
        let size = match mp4.reader.read_u16() {
            Ok(v) => v,
            Err(e) => {
                return Err(e);
            },
        };
        let color = match parse_elems_until::<u16>(mp4, end) {
            Ok(v) => v,
            Err(e) => {
                return Err(e);
            },
        };
        if mp4.position() != end {
            return Err(ParseError::FramingViolation);
        }
        Ok(Ctab { seed, flags, size, color })
    }
}

/// The `hdlr` handler atom: which component interprets this track's media.
/// The component name fills the atom to its declared end and must be valid
/// UTF-8.
#[derive(Debug, Clone, PartialEq, Eq)]
pub struct Hdlr {
    pub version: u8,
    pub flags: Vec<u8>,
    pub component_type: u32,
    pub component_subtype: u32,
    pub component_manufacturer: u32,
    pub component_flags: u32,
    pub component_flags_mask: u32,
    pub component_name: Vec<u8>,
}

/// The ghost content of a `Hdlr`.
pub struct SpecHdlr {
    pub version: u8,
    pub flags: Seq<u8>,
    pub component_type: u32,
    pub component_subtype: u32,
    pub component_manufacturer: u32,
    pub component_flags: u32,
    pub component_flags_mask: u32,
    pub component_name: Seq<u8>,
}

impl DeepView for Hdlr {
    type V = SpecHdlr;

    open spec fn deep_view(&self) -> SpecHdlr {
        SpecHdlr {
            version: self.version,
            flags: self.flags@,
            component_type: self.component_type,
            component_subtype: self.component_subtype,
            component_manufacturer: self.component_manufacturer,
            component_flags: self.component_flags,
            component_flags_mask: self.component_flags_mask,
            component_name: self.component_name@,
        }
    }
}

impl Parse for Hdlr {
    open spec fn spec_parse(b: Seq<u8>, pos: int) -> Result<(SpecHdlr, int), ParseError> {
        match spec_leaf_frame(b, pos, HDLR) {
            Err(e) => Err(e),
            Ok(l) => {
                if pos + 32 > b.len() {
                    Err(ParseError::Truncated)
                } else {
                    let tail = spec_fill(b, pos + 32, pos + l);
                    if tail.1 != pos + l {
                        Err(ParseError::FramingViolation)
                    } else if !is_valid_utf8_from(tail.0, 0) {
                    Err(ParseError::InvalidEncoding)
                } else {
                        Ok((SpecHdlr { version: b[pos + 8], flags: b.subrange(pos + 9, pos + 9 + 3), component_type: be_u32_at(b, pos + 12) as u32, component_subtype: be_u32_at(b, pos + 16) as u32, component_manufacturer: be_u32_at(b, pos + 20) as u32, component_flags: be_u32_at(b, pos + 24) as u32, component_flags_mask: be_u32_at(b, pos + 28) as u32, component_name: tail.0 }, pos + l))
                    }
                }
            },
        }
    }

    fn parse(mp4: &mut Mp4) -> (r: Result<Hdlr, ParseError>) {
        let start = mp4.position();
        let l = match read_leaf_frame(mp4, HDLR) {
            Ok(v) => v,
            Err(e) => {
                return Err(e);
            },
        };
        let end = start + l;
        let version = match mp4.reader.read_u8() {
            Ok(v) => v,
            Err(e) => {
                return Err(e);
            },
        };
        let flags = match mp4.reader.read_bytes_dyn(3) {
            Ok(v) => v,
            Err(e) => {
                return Err(e);
            },
        };
        let component_type = match mp4.reader.read_u32() {
            Ok(v) => v,
            Err(e) => {
                return Err(e);
            },
        };
        let component_subtype = match mp4.reader.read_u32() {
            Ok(v) => v,
            Err(e) => {
                return Err(e);
            },
        };
        let component_manufacturer = match mp4.reader.read_u32() {
            Ok(v) => v,
            Err(e) => {
                return Err(e);
            },
        };
        let component_flags = match mp4.reader.read_u32() {
            Ok(v) => v,
            Err(e) => {
                return Err(e);
            },
        };
        let component_flags_mask = match mp4.reader.read_u32() {
            Ok(v) => v,
            Err(e) => {
                return Err(e);
            },
        };
        let component_name = read_fill(mp4, end);
        if mp4.position() != end {
            return Err(ParseError::FramingViolation);
        }
        if !is_valid_utf8(&component_name) {
            return Err(ParseError::InvalidEncoding);
        }
        Ok(Hdlr { version, flags, component_type, component_subtype, component_manufacturer, component_flags, component_flags_mask, component_name })
    }
}

/// The `vmhd` video media information header.
#[derive(Debug, Clone, PartialEq, Eq)]
pub struct Vmhd {
    pub version: u8,
    pub flags: Vec<u8>,
    pub graphics_mode: u16,
    pub op_color: Vec<u8>,
}

/// The ghost content of a `Vmhd`.
pub struct SpecVmhd {
    pub version: u8,
    pub flags: Seq<u8>,
    pub graphics_mode: u16,
    pub op_color: Seq<u8>,
}

impl DeepView for Vmhd {
    type V = SpecVmhd;

    open spec fn deep_view(&self) -> SpecVmhd {
        SpecVmhd {
            version: self.version,
            flags: self.flags@,
            graphics_mode: self.graphics_mode,
            op_color: self.op_color@,
        }
    }
}

impl Parse for Vmhd {
    open spec fn spec_parse(b: Seq<u8>, pos: int) -> Result<(SpecVmhd, int), ParseError> {
        match spec_leaf_frame(b, pos, VMHD) {
            Err(e) => Err(e),
            Ok(l) => {
                                if pos + 20 > b.len() {
                    Err(ParseError::Truncated)
                } else if l != 20 {
                    Err(ParseError::FramingViolation)
                } else {
                    Ok((SpecVmhd { version: b[pos + 8], flags: b.subrange(pos + 9, pos + 9 + 3), graphics_mode: be_u16_at(b, pos + 12) as u16, op_color: b.subrange(pos + 14, pos + 14 + 6) }, pos + 20))
                }
            },
        }
    }

    fn parse(mp4: &mut Mp4) -> (r: Result<Vmhd, ParseError>) {
        let start = mp4.position();
        let l = match read_leaf_frame(mp4, VMHD) {
            Ok(v) => v,
            Err(e) => {
                return Err(e);
            },
        };
        let end = start + l;
        let version = match mp4.reader.read_u8() {
            Ok(v) => v,
            Err(e) => {
                return Err(e);
            },
        };
        let flags = match mp4.reader.read_bytes_dyn(3) {
            Ok(v) => v,
            Err(e) => {
                return Err(e);
            },
        };
        let graphics_mode = match mp4.reader.read_u16() {
            Ok(v) => v,
            Err(e) => {
                return Err(e);
            },
        };
        let op_color = match mp4.reader.read_bytes_dyn(6) {
            Ok(v) => v,
            Err(e) => {
                return Err(e);
            },
        };
        if mp4.position() != end {
            return Err(ParseError::FramingViolation);
        }
        Ok(Vmhd { version, flags, graphics_mode, op_color })
    }
}

/// The `smhd` sound media information header.
#[derive(Debug, Clone, PartialEq, Eq)]
pub struct Smhd {
    pub version: u8,
    pub flags: Vec<u8>,
    pub balance: u16,
    pub reserved: u16,
}

/// The ghost content of a `Smhd`.
pub struct SpecSmhd {
    pub version: u8,
    pub flags: Seq<u8>,
    pub balance: u16,
    pub reserved: u16,
}

impl DeepView for Smhd {
    type V = SpecSmhd;

    open spec fn deep_view(&self) -> SpecSmhd {
        SpecSmhd {
            version: self.version,
            flags: self.flags@,
            balance: self.balance,
            reserved: self.reserved,
        }
    }
}

impl Parse for Smhd {
    open spec fn spec_parse(b: Seq<u8>, pos: int) -> Result<(SpecSmhd, int), ParseError> {
        match spec_leaf_frame(b, pos, SMHD) {
            Err(e) => Err(e),
            Ok(l) => {
                                if pos + 16 > b.len() {
                    Err(ParseError::Truncated)
                } else if l != 16 {
                    Err(ParseError::FramingViolation)
                } else {
                    Ok((SpecSmhd { version: b[pos + 8], flags: b.subrange(pos + 9, pos + 9 + 3), balance: be_u16_at(b, pos + 12) as u16, reserved: be_u16_at(b, pos + 14) as u16 }, pos + 16))
                }
            },
        }
    }

    fn parse(mp4: &mut Mp4) -> (r: Result<Smhd, ParseError>) {
        let start = mp4.position();
        let l = match read_leaf_frame(mp4, SMHD) {
            Ok(v) => v,
            Err(e) => {
                return Err(e);
            },
        };
        let end = start + l;
        let version = match mp4.reader.read_u8() {
            Ok(v) => v,
            Err(e) => {
                return Err(e);
            },
        };
        let flags = match mp4.reader.read_bytes_dyn(3) {
            Ok(v) => v,
            Err(e) => {
                return Err(e);
            },
        };
        let balance = match mp4.reader.read_u16() {
            Ok(v) => v,
            Err(e) => {
                return Err(e);
            },
        };
        let reserved = match mp4.reader.read_u16() {
            Ok(v) => v,
            Err(e) => {
                return Err(e);
            },
        };
        if mp4.position() != end {
            return Err(ParseError::FramingViolation);
        }
        Ok(Smhd { version, flags, balance, reserved })
    }
}

/// The `alis` data reference: a file alias, kept as raw trailing bytes.
#[derive(Debug, Clone, PartialEq, Eq)]
pub struct Alis {
    pub version: u8,
    pub flags: Vec<u8>,
    pub data: Vec<u8>,
}

/// The ghost content of an `Alis`.
pub struct SpecAlis {
    pub version: u8,
    pub flags: Seq<u8>,
    pub data: Seq<u8>,
}

impl DeepView for Alis {
    type V = SpecAlis;

    open spec fn deep_view(&self) -> SpecAlis {
        SpecAlis {
            version: self.version,
            flags: self.flags@,
            data: self.data@,
        }
    }
}

impl Parse for Alis {
    open spec fn spec_parse(b: Seq<u8>, pos: int) -> Result<(SpecAlis, int), ParseError> {
        match spec_leaf_frame(b, pos, ALIS) {
            Err(e) => Err(e),
            Ok(l) => {
                if pos + 12 > b.len() {
                    Err(ParseError::Truncated)
                } else {
                    let tail = spec_fill(b, pos + 12, pos + l);
                    if tail.1 != pos + l {
                        Err(ParseError::FramingViolation)
                    } else {
                        Ok((SpecAlis { version: b[pos + 8], flags: b.subrange(pos + 9, pos + 9 + 3), data: tail.0 }, pos + l))
                    }
                }
            },
        }
    }

    fn parse(mp4: &mut Mp4) -> (r: Result<Alis, ParseError>) {
        let start = mp4.position();
        let l = match read_leaf_frame(mp4, ALIS) {
            Ok(v) => v,
            Err(e) => {
                return Err(e);
            },
        };
        let end = start + l;
        let version = match mp4.reader.read_u8() {
            Ok(v) => v,
            Err(e) => {
                return Err(e);
            },
        };
        let flags = match mp4.reader.read_bytes_dyn(3) {
            Ok(v) => v,
            Err(e) => {
                return Err(e);
            },
        };
        let data = read_fill(mp4, end);
        if mp4.position() != end {
            return Err(ParseError::FramingViolation);
        }
        Ok(Alis { version, flags, data })
    }
}

/// The `rsrc` data reference: a resource locator, kept as raw trailing bytes.
#[derive(Debug, Clone, PartialEq, Eq)]
pub struct Rsrc {
    pub version: u8,
    pub flags: Vec<u8>,
    pub data: Vec<u8>,
}

/// The ghost content of a `Rsrc`.
pub struct SpecRsrc {
    pub version: u8,
    pub flags: Seq<u8>,
    pub data: Seq<u8>,
}

impl DeepView for Rsrc {
    type V = SpecRsrc;

    open spec fn deep_view(&self) -> SpecRsrc {
        SpecRsrc {
            version: self.version,
            flags: self.flags@,
            data: self.data@,
        }
    }
}

impl Parse for Rsrc {
    open spec fn spec_parse(b: Seq<u8>, pos: int) -> Result<(SpecRsrc, int), ParseError> {
        match spec_leaf_frame(b, pos, RSRC) {
            Err(e) => Err(e),
            Ok(l) => {
                if pos + 12 > b.len() {
                    Err(ParseError::Truncated)
                } else {
                    let tail = spec_fill(b, pos + 12, pos + l);
                    if tail.1 != pos + l {
                        Err(ParseError::FramingViolation)
                    } else {
                        Ok((SpecRsrc { version: b[pos + 8], flags: b.subrange(pos + 9, pos + 9 + 3), data: tail.0 }, pos + l))
                    }
                }
            },
        }
    }

    fn parse(mp4: &mut Mp4) -> (r: Result<Rsrc, ParseError>) {
        let start = mp4.position();
        let l = match read_leaf_frame(mp4, RSRC) {
            Ok(v) => v,
            Err(e) => {
                return Err(e);
            },
        };
        let end = start + l;
        let version = match mp4.reader.read_u8() {
            Ok(v) => v,
            Err(e) => {
                return Err(e);
            },
        };
        let flags = match mp4.reader.read_bytes_dyn(3) {
            Ok(v) => v,
            Err(e) => {
                return Err(e);
            },
        };
        let data = read_fill(mp4, end);
        if mp4.position() != end {
            return Err(ParseError::FramingViolation);
        }
        Ok(Rsrc { version, flags, data })
    }
}

/// The `url ` data reference: a URL, kept as raw trailing bytes.
#[derive(Debug, Clone, PartialEq, Eq)]
pub struct Url {
    pub version: u8,
    pub flags: Vec<u8>,
    pub data: Vec<u8>,
}

/// The ghost content of an `Url`.
pub struct SpecUrl {
    pub version: u8,
    pub flags: Seq<u8>,
    pub data: Seq<u8>,
}

impl DeepView for Url {
    type V = SpecUrl;

    open spec fn deep_view(&self) -> SpecUrl {
        SpecUrl {
            version: self.version,
            flags: self.flags@,
            data: self.data@,
        }
    }
}

impl Parse for Url {
    open spec fn spec_parse(b: Seq<u8>, pos: int) -> Result<(SpecUrl, int), ParseError> {
        match spec_leaf_frame(b, pos, URL) {
            Err(e) => Err(e),
            Ok(l) => {
                if pos + 12 > b.len() {
                    Err(ParseError::Truncated)
                } else {
                    let tail = spec_fill(b, pos + 12, pos + l);
                    if tail.1 != pos + l {
                        Err(ParseError::FramingViolation)
                    } else {
                        Ok((SpecUrl { version: b[pos + 8], flags: b.subrange(pos + 9, pos + 9 + 3), data: tail.0 }, pos + l))
                    }
                }
            },
        }
    }

    fn parse(mp4: &mut Mp4) -> (r: Result<Url, ParseError>) {
        let start = mp4.position();
        let l = match read_leaf_frame(mp4, URL) {
            Ok(v) => v,
            Err(e) => {
                return Err(e);
            },
        };
        let end = start + l;
        let version = match mp4.reader.read_u8() {
            Ok(v) => v,
            Err(e) => {
                return Err(e);
            },
        };
        let flags = match mp4.reader.read_bytes_dyn(3) {
            Ok(v) => v,
            Err(e) => {
                return Err(e);
            },
        };
        let data = read_fill(mp4, end);
        if mp4.position() != end {
            return Err(ParseError::FramingViolation);
        }
        Ok(Url { version, flags, data })
    }
}

impl PeekLen for Alis {
    open spec fn spec_peek_len(b: Seq<u8>, pos: int) -> Result<usize, ParseError> {
        spec_frame_peek_len(b, pos)
    }

    fn peek_len(mp4: &mut Mp4) -> (r: Result<usize, ParseError>) {
        frame_peek_len(mp4)
    }
}

impl PeekLen for Rsrc {
    open spec fn spec_peek_len(b: Seq<u8>, pos: int) -> Result<usize, ParseError> {
        spec_frame_peek_len(b, pos)
    }

    fn peek_len(mp4: &mut Mp4) -> (r: Result<usize, ParseError>) {
        frame_peek_len(mp4)
    }
}

impl PeekLen for Url {
    open spec fn spec_peek_len(b: Seq<u8>, pos: int) -> Result<usize, ParseError> {
        spec_frame_peek_len(b, pos)
    }

    fn peek_len(mp4: &mut Mp4) -> (r: Result<usize, ParseError>) {
        frame_peek_len(mp4)
    }
}

/// The `dref` data reference atom: where this track's media data lives.
#[derive(Debug, Clone, PartialEq, Eq)]
pub struct Dref {
    pub version: u8,
    pub flags: Vec<u8>,
    pub number_of_entries: u32,
    pub data: Vec<DataRef>,
}

/// The ghost content of a `Dref`.
pub struct SpecDref {
    pub version: u8,
    pub flags: Seq<u8>,
    pub number_of_entries: u32,
    pub data: Seq<SpecDataRef>,
}

impl DeepView for Dref {
    type V = SpecDref;

    open spec fn deep_view(&self) -> SpecDref {
        SpecDref {
            version: self.version,
            flags: self.flags@,
            number_of_entries: self.number_of_entries,
            data: self.data.deep_view(),
        }
    }
}

impl Parse for Dref {
    open spec fn spec_parse(b: Seq<u8>, pos: int) -> Result<(SpecDref, int), ParseError> {
        match spec_leaf_frame(b, pos, DREF) {
            Err(e) => Err(e),
            Ok(l) => {
                if pos + 16 > b.len() {
                    Err(ParseError::Truncated)
                } else {
                    match spec_parse_elems_until::<DataRef>(b, pos + 16, pos + l) {
                        Err(e) => Err(e),
                        Ok(rs) => {
                            if rs.1 != pos + l {
                                Err(ParseError::FramingViolation)
                            } else {
                                Ok((SpecDref { version: b[pos + 8], flags: b.subrange(pos + 9, pos + 9 + 3), number_of_entries: be_u32_at(b, pos + 12) as u32, data: rs.0 }, pos + l))
                            }
                        },
                    }
                }
            },
        }
    }

    fn parse(mp4: &mut Mp4) -> (r: Result<Dref, ParseError>) {
        let start = mp4.position();
        let l = match read_leaf_frame(mp4, DREF) {
            Ok(v) => v,
            Err(e) => {
                return Err(e);
            },
        };
        let end = start + l;
        let version = match mp4.reader.read_u8() {
            Ok(v) => v,
            Err(e) => {
                return Err(e);
            },
        };
        let flags = match mp4.reader.read_bytes_dyn(3) {
            Ok(v) => v,
            Err(e) => {
                return Err(e);
            },
        };
        let number_of_entries = match mp4.reader.read_u32() {
            Ok(v) => v,
            Err(e) => {
                return Err(e);
            },
        };
        let data = match parse_elems_until::<DataRef>(mp4, end) {
            Ok(v) => v,
            Err(e) => {
                return Err(e);
            },
        };
        if mp4.position() != end {
            return Err(ParseError::FramingViolation);
        }
        Ok(Dref { version, flags, number_of_entries, data })
    }
}

/// The `stsd` sample description atom: deferred-parse handles to the sample
/// description tables, whose concrete shape depends on the track's media
/// kind.
#[derive(Debug, Clone, PartialEq, Eq)]
pub struct Stsd {
    pub version: u8,
    pub flags: Vec<u8>,
    pub number_of_entries: u32,
    pub entries: Vec<Reference<BaseSampleDescriptionTable>>,
}

/// The ghost content of a `Stsd`.
pub struct SpecStsd {
    pub version: u8,
    pub flags: Seq<u8>,
    pub number_of_entries: u32,
    pub entries: Seq<SpecReference>,
}

impl DeepView for Stsd {
    type V = SpecStsd;

    open spec fn deep_view(&self) -> SpecStsd {
        SpecStsd {
            version: self.version,
            flags: self.flags@,
            number_of_entries: self.number_of_entries,
            entries: self.entries.deep_view(),
        }
    }
}

impl Parse for Stsd {
    open spec fn spec_parse(b: Seq<u8>, pos: int) -> Result<(SpecStsd, int), ParseError> {
        match spec_leaf_frame(b, pos, STSD) {
            Err(e) => Err(e),
            Ok(l) => {
                if pos + 16 > b.len() {
                    Err(ParseError::Truncated)
                } else {
                    match spec_parse_elems_until::<Reference<BaseSampleDescriptionTable>>(b, pos + 16, pos + l) {
                        Err(e) => Err(e),
                        Ok(rs) => {
                            if rs.1 != pos + l {
                                Err(ParseError::FramingViolation)
                            } else {
                                Ok((SpecStsd { version: b[pos + 8], flags: b.subrange(pos + 9, pos + 9 + 3), number_of_entries: be_u32_at(b, pos + 12) as u32, entries: rs.0 }, pos + l))
                            }
                        },
                    }
                }
            },
        }
    }

    fn parse(mp4: &mut Mp4) -> (r: Result<Stsd, ParseError>) {
        let start = mp4.position();
        let l = match read_leaf_frame(mp4, STSD) {
            Ok(v) => v,
            Err(e) => {
                return Err(e);
            },
        };
        let end = start + l;
        let version = match mp4.reader.read_u8() {
            Ok(v) => v,
            Err(e) => {
                return Err(e);
            },
        };
        let flags = match mp4.reader.read_bytes_dyn(3) {
            Ok(v) => v,
            Err(e) => {
                return Err(e);
            },
        };
        let number_of_entries = match mp4.reader.read_u32() {
            Ok(v) => v,
            Err(e) => {
                return Err(e);
            },
        };
        let entries = match parse_elems_until::<Reference<BaseSampleDescriptionTable>>(mp4, end) {
            Ok(v) => v,
            Err(e) => {
                return Err(e);
            },
        };
        if mp4.position() != end {
            return Err(ParseError::FramingViolation);
        }
        Ok(Stsd { version, flags, number_of_entries, entries })
    }
}

/// The `ftyp` file type atom: the file's brand, its version, and the list of
/// compatible brands filling the atom to its declared end.
#[derive(Debug, Clone, PartialEq, Eq)]
pub struct Ftyp {
    pub major_brand: u32,
    pub major_brand_version: u32,
    pub compatible_brands: Vec<u8>,
}

/// The ghost content of a `Ftyp`.
pub struct SpecFtyp {
    pub major_brand: u32,
    pub major_brand_version: u32,
    pub compatible_brands: Seq<u8>,
}

impl DeepView for Ftyp {
    type V = SpecFtyp;

    open spec fn deep_view(&self) -> SpecFtyp {
        SpecFtyp {
            major_brand: self.major_brand,
            major_brand_version: self.major_brand_version,
            compatible_brands: self.compatible_brands@,
        }
    }
}

impl Parse for Ftyp {
    open spec fn spec_parse(b: Seq<u8>, pos: int) -> Result<(SpecFtyp, int), ParseError> {
        match spec_leaf_frame(b, pos, FTYP) {
            Err(e) => Err(e),
            Ok(l) => {
                if pos + 16 > b.len() {
                    Err(ParseError::Truncated)
                } else {
                    let tail = spec_fill(b, pos + 16, pos + l);
                    if tail.1 != pos + l {
                        Err(ParseError::FramingViolation)
                    } else {
                        Ok((SpecFtyp { major_brand: be_u32_at(b, pos + 8) as u32, major_brand_version: be_u32_at(b, pos + 12) as u32, compatible_brands: tail.0 }, pos + l))
                    }
                }
            },
        }
    }

    fn parse(mp4: &mut Mp4) -> (r: Result<Ftyp, ParseError>) {
        let start = mp4.position();
        let l = match read_leaf_frame(mp4, FTYP) {
            Ok(v) => v,
            Err(e) => {
                return Err(e);
            },
        };
        let end = start + l;
        let major_brand = match mp4.reader.read_u32() {
            Ok(v) => v,
            Err(e) => {
                return Err(e);
            },
        };
        let major_brand_version = match mp4.reader.read_u32() {
            Ok(v) => v,
            Err(e) => {
                return Err(e);
            },
        };
        let compatible_brands = read_fill(mp4, end);
        if mp4.position() != end {
            return Err(ParseError::FramingViolation);
        }
        Ok(Ftyp { major_brand, major_brand_version, compatible_brands })
    }
}

/// The `mvhd` movie header: characteristics of the whole movie, such as its
/// time scale and duration.
#[derive(Debug, Clone, PartialEq, Eq)]
pub struct Mvhd {
    pub version: u8,
    pub flags: Vec<u8>,
    pub creation_time: u32,
    pub modification_time: u32,
    pub time_scale: u32,
    pub duration: u32,
    pub preferred_rate: u32,
    pub preferred_volume: u16,
    pub reserved: Vec<u8>,
    pub matrix: Matrix,
    pub preview_time: u32,
    pub preview_duration: u32,
    pub poster_time: u32,
    pub selection_time: u32,
    pub selection_duration: u32,
    pub current_time: u32,
    pub next_track_id: u32,
}

/// The ghost content of a `Mvhd`.
pub struct SpecMvhd {
    pub version: u8,
    pub flags: Seq<u8>,
    pub creation_time: u32,
    pub modification_time: u32,
    pub time_scale: u32,
    pub duration: u32,
    pub preferred_rate: u32,
    pub preferred_volume: u16,
    pub reserved: Seq<u8>,
    pub matrix: Matrix,
    pub preview_time: u32,
    pub preview_duration: u32,
    pub poster_time: u32,
    pub selection_time: u32,
    pub selection_duration: u32,
    pub current_time: u32,
    pub next_track_id: u32,
}

impl DeepView for Mvhd {
    type V = SpecMvhd;

    open spec fn deep_view(&self) -> SpecMvhd {
        SpecMvhd {
            version: self.version,
            flags: self.flags@,
            creation_time: self.creation_time,
            modification_time: self.modification_time,
            time_scale: self.time_scale,
            duration: self.duration,
            preferred_rate: self.preferred_rate,
            preferred_volume: self.preferred_volume,
            reserved: self.reserved@,
            matrix: self.matrix,
            preview_time: self.preview_time,
            preview_duration: self.preview_duration,
            poster_time: self.poster_time,
            selection_time: self.selection_time,
            selection_duration: self.selection_duration,
            current_time: self.current_time,
            next_track_id: self.next_track_id,
        }
    }
}

impl Parse for Mvhd {
    open spec fn spec_parse(b: Seq<u8>, pos: int) -> Result<(SpecMvhd, int), ParseError> {
        match spec_leaf_frame(b, pos, MVHD) {
            Err(e) => Err(e),
            Ok(l) => {
                                if pos + 108 > b.len() {
                    Err(ParseError::Truncated)
                } else if l != 108 {
                    Err(ParseError::FramingViolation)
                } else {
                    Ok((SpecMvhd { version: b[pos + 8], flags: b.subrange(pos + 9, pos + 9 + 3), creation_time: be_u32_at(b, pos + 12) as u32, modification_time: be_u32_at(b, pos + 16) as u32, time_scale: be_u32_at(b, pos + 20) as u32, duration: be_u32_at(b, pos + 24) as u32, preferred_rate: be_u32_at(b, pos + 28) as u32, preferred_volume: be_u16_at(b, pos + 32) as u16, reserved: b.subrange(pos + 34, pos + 34 + 10), matrix: spec_matrix_at(b, pos + 44), preview_time: be_u32_at(b, pos + 80) as u32, preview_duration: be_u32_at(b, pos + 84) as u32, poster_time: be_u32_at(b, pos + 88) as u32, selection_time: be_u32_at(b, pos + 92) as u32, selection_duration: be_u32_at(b, pos + 96) as u32, current_time: be_u32_at(b, pos + 100) as u32, next_track_id: be_u32_at(b, pos + 104) as u32 }, pos + 108))
                }
            },
        }
    }

    fn parse(mp4: &mut Mp4) -> (r: Result<Mvhd, ParseError>) {
        let start = mp4.position();
        let l = match read_leaf_frame(mp4, MVHD) {
            Ok(v) => v,
            Err(e) => {
                return Err(e);
            },
        };
        let end = start + l;
        let version = match mp4.reader.read_u8() {
            Ok(v) => v,
            Err(e) => {
                return Err(e);
            },
        };
        let flags = match mp4.reader.read_bytes_dyn(3) {
            Ok(v) => v,
            Err(e) => {
                return Err(e);
            },
        };
        let creation_time = match mp4.reader.read_u32() {
            Ok(v) => v,
            Err(e) => {
                return Err(e);
            },
        };
        let modification_time = match mp4.reader.read_u32() {
            Ok(v) => v,
            Err(e) => {
                return Err(e);
            },
        };
        let time_scale = match mp4.reader.read_u32() {
            Ok(v) => v,
            Err(e) => {
                return Err(e);
            },
        };
        let duration = match mp4.reader.read_u32() {
            Ok(v) => v,
            Err(e) => {
                return Err(e);
            },
        };
        let preferred_rate = match mp4.reader.read_u32() {
            Ok(v) => v,
            Err(e) => {
                return Err(e);
            },
        };
        let preferred_volume = match mp4.reader.read_u16() {
            Ok(v) => v,
            Err(e) => {
                return Err(e);
            },
        };
        let reserved = match mp4.reader.read_bytes_dyn(10) {
            Ok(v) => v,
            Err(e) => {
                return Err(e);
            },
        };
        let matrix = match mp4.read_matrix() {
            Ok(v) => v,
            Err(e) => {
                return Err(e);
            },
        };
        let preview_time = match mp4.reader.read_u32() {
            Ok(v) => v,
            Err(e) => {
                return Err(e);
            },
        };
        let preview_duration = match mp4.reader.read_u32() {
            Ok(v) => v,
            Err(e) => {
                return Err(e);
            },
        };
        let poster_time = match mp4.reader.read_u32() {
            Ok(v) => v,
            Err(e) => {
                return Err(e);
            },
        };
        let selection_time = match mp4.reader.read_u32() {
            Ok(v) => v,
            Err(e) => {
                return Err(e);
            },
        };
        let selection_duration = match mp4.reader.read_u32() {
            Ok(v) => v,
            Err(e) => {
                return Err(e);
            },
        };
        let current_time = match mp4.reader.read_u32() {
            Ok(v) => v,
            Err(e) => {
                return Err(e);
            },
        };
        let next_track_id = match mp4.reader.read_u32() {
            Ok(v) => v,
            Err(e) => {
                return Err(e);
            },
        };
        if mp4.position() != end {
            return Err(ParseError::FramingViolation);
        }
        Ok(Mvhd { version, flags, creation_time, modification_time, time_scale, duration, preferred_rate, preferred_volume, reserved, matrix, preview_time, preview_duration, poster_time, selection_time, selection_duration, current_time, next_track_id })
    }
}

/// The `mdat` media data atom: the raw sample bytes, interpretable only
/// through the movie resource.
#[derive(Debug, Clone, PartialEq, Eq)]
pub struct Mdat {
    pub bytes: Vec<u8>,
}

/// The ghost content of a `Mdat`.
pub struct SpecMdat {
    pub bytes: Seq<u8>,
}

impl DeepView for Mdat {
    type V = SpecMdat;

    open spec fn deep_view(&self) -> SpecMdat {
        SpecMdat {
            bytes: self.bytes@,
        }
    }
}

impl Parse for Mdat {
    open spec fn spec_parse(b: Seq<u8>, pos: int) -> Result<(SpecMdat, int), ParseError> {
        match spec_leaf_frame(b, pos, MDAT) {
            Err(e) => Err(e),
            Ok(l) => {
                if pos + 8 > b.len() {
                    Err(ParseError::Truncated)
                } else {
                    let tail = spec_fill(b, pos + 8, pos + l);
                    if tail.1 != pos + l {
                        Err(ParseError::FramingViolation)
                    } else {
                        Ok((SpecMdat { bytes: tail.0 }, pos + l))
                    }
                }
            },
        }
    }

    fn parse(mp4: &mut Mp4) -> (r: Result<Mdat, ParseError>) {
        let start = mp4.position();
        let l = match read_leaf_frame(mp4, MDAT) {
            Ok(v) => v,
            Err(e) => {
                return Err(e);
            },
        };
        let end = start + l;
        let bytes = read_fill(mp4, end);
        if mp4.position() != end {
            return Err(ParseError::FramingViolation);
        }
        Ok(Mdat { bytes })
    }
}

/// One entry of a `dref` atom: a tagged union over the recognized data
/// reference kinds, held as deferred-parse handles.
#[derive(Debug, Clone, Copy, PartialEq, Eq)]
pub enum DataRef {
    Alis(Reference<Alis>),
    Rsrc(Reference<Rsrc>),
    Url(Reference<Url>),
}

/// The ghost content of a `DataRef`.
pub enum SpecDataRef {
    Alis(SpecReference),
    Rsrc(SpecReference),
    Url(SpecReference),
}

impl DeepView for DataRef {
    type V = SpecDataRef;

    open spec fn deep_view(&self) -> SpecDataRef {
        match self {
            DataRef::Alis(r) => SpecDataRef::Alis(r.deep_view()),
            DataRef::Rsrc(r) => SpecDataRef::Rsrc(r.deep_view()),
            DataRef::Url(r) => SpecDataRef::Url(r.deep_view()),
        }
    }
}

impl Parse for DataRef {
    /// A data reference is recognized by peeking at its tag; an unrecognized
    /// tag is reported with its bytes, never silently defaulted.
    open spec fn spec_parse(b: Seq<u8>, pos: int) -> Result<(SpecDataRef, int), ParseError> {
        match crate::spec_peek_header(b, pos) {
            Err(e) => Err(e),
            Ok(h) => {
                if h.0 == ALIS {
                    match <Reference<Alis> as Parse>::spec_parse(b, pos) {
                        Err(e) => Err(e),
                        Ok(rs) => Ok((SpecDataRef::Alis(rs.0), rs.1)),
                    }
                } else if h.0 == RSRC {
                    match <Reference<Rsrc> as Parse>::spec_parse(b, pos) {
                        Err(e) => Err(e),
                        Ok(rs) => Ok((SpecDataRef::Rsrc(rs.0), rs.1)),
                    }
                } else if h.0 == URL {
                    match <Reference<Url> as Parse>::spec_parse(b, pos) {
                        Err(e) => Err(e),
                        Ok(rs) => Ok((SpecDataRef::Url(rs.0), rs.1)),
                    }
                } else {
                    Err(ParseError::UnknownVariant(h.0))
                }
            },
        }
    }

    fn parse(mp4: &mut Mp4) -> (r: Result<DataRef, ParseError>) {
        let h = match mp4.peek_header() {
            Ok(v) => v,
            Err(e) => {
                return Err(e);
            },
        };
        if h.0 == ALIS {
            match <Reference<Alis> as Parse>::parse(mp4) {
                Ok(v) => Ok(DataRef::Alis(v)),
                Err(e) => Err(e),
            }
        } else if h.0 == RSRC {
            match <Reference<Rsrc> as Parse>::parse(mp4) {
                Ok(v) => Ok(DataRef::Rsrc(v)),
                Err(e) => Err(e),
            }
        } else if h.0 == URL {
            match <Reference<Url> as Parse>::parse(mp4) {
                Ok(v) => Ok(DataRef::Url(v)),
                Err(e) => Err(e),
            }
        } else {
            Err(ParseError::UnknownVariant(h.0))
        }
    }
}

/// The `moov` container atom: the movie resource, whose children locate
/// and describe the sample data.
/// Created fully populated with its unresolved children; each named role is
/// resolved on demand and memoized, claiming its child out of the unresolved
/// list.
#[derive(Debug, Clone, PartialEq, Eq)]
pub struct Moov {
    pub unparsed_atoms: Vec<UnparsedAtom>,
    pub movie_header: InternalElement<Reference<Mvhd>>,
    pub clip: InternalElement<Option<Reference<Clip>>>,
    pub trak: InternalElement<Vec<Reference<Trak>>>,
    pub udta: InternalElement<Reference<Udta>>,
    pub ctab: InternalElement<Reference<Udta>>,
    pub cmov: InternalElement<Reference<Cmov>>,
    pub rmra: InternalElement<Reference<Rmra>>,
}

/// The ghost content of a `Moov`.
pub struct SpecMoov {
    pub unparsed_atoms: Seq<UnparsedAtom>,
    pub movie_header: InternalElement<SpecReference>,
    pub clip: InternalElement<Option<SpecReference>>,
    pub trak: InternalElement<Seq<SpecReference>>,
    pub udta: InternalElement<SpecReference>,
    pub ctab: InternalElement<SpecReference>,
    pub cmov: InternalElement<SpecReference>,
    pub rmra: InternalElement<SpecReference>,
}

impl DeepView for Moov {
    type V = SpecMoov;

    open spec fn deep_view(&self) -> SpecMoov {
        SpecMoov {
            unparsed_atoms: self.unparsed_atoms.deep_view(),
            movie_header: self.movie_header.deep_view(),
            clip: self.clip.deep_view(),
            trak: self.trak.deep_view(),
            udta: self.udta.deep_view(),
            ctab: self.ctab.deep_view(),
            cmov: self.cmov.deep_view(),
            rmra: self.rmra.deep_view(),
        }
    }
}

impl Parse for Moov {
    open spec fn spec_parse(b: Seq<u8>, pos: int) -> Result<(SpecMoov, int), ParseError> {
        match spec_container_body(b, pos) {
            Err(e) => Err(e),
            Ok(rs) => Ok((SpecMoov { unparsed_atoms: rs.0, movie_header: InternalElement::NotSearched, clip: InternalElement::NotSearched, trak: InternalElement::NotSearched, udta: InternalElement::NotSearched, ctab: InternalElement::NotSearched, cmov: InternalElement::NotSearched, rmra: InternalElement::NotSearched }, rs.1)),
        }
    }

    fn parse(mp4: &mut Mp4) -> (r: Result<Moov, ParseError>) {
        let atoms = match parse_container_body(mp4) {
            Ok(v) => v,
            Err(e) => {
                return Err(e);
            },
        };
        Ok(
            Moov {
                unparsed_atoms: atoms,
                movie_header: InternalElement::NotSearched,
                clip: InternalElement::NotSearched,
                trak: InternalElement::NotSearched,
                udta: InternalElement::NotSearched,
                ctab: InternalElement::NotSearched,
                cmov: InternalElement::NotSearched,
                rmra: InternalElement::NotSearched,
            },
        )
    }
}

impl Moov {
    /// Resolves the required `movie_header` role: on first access the first matching
    /// child is claimed out of the unresolved list and cached; later accesses
    /// return the cache untouched. A missing child is `MissingRequiredChild`.
    pub fn movie_header(&mut self) -> (r: Result<Reference<Mvhd>, ParseError>)
        ensures
            match old(self).movie_header {
                InternalElement::Searched(v) => *final(self) == *old(self) && (r matches Ok(x)
                    && x == v),
                InternalElement::NotSearched => ({
                    let s = old(self).unparsed_atoms@;
                    let i = first_match(s, MVHD);
                    if i >= 0 {
                        &&& r matches Ok(x) && x.offset == s[i].offset && x.len == s[i].len
                            && final(self).movie_header == InternalElement::Searched(x)
                        &&& final(self).unparsed_atoms@ == s.remove(i)
                        &&& final(self).clip == old(self).clip &&& final(self).trak == old(self).trak &&& final(self).udta == old(self).udta &&& final(self).ctab == old(self).ctab &&& final(self).cmov == old(self).cmov &&& final(self).rmra == old(self).rmra
                    } else {
                        &&& r matches Err(e) && e == ParseError::MissingRequiredChild
                        &&& *final(self) == *old(self)
                    }
                }),
            },
    {
        match &self.movie_header {
            InternalElement::Searched(v) => {
                return Ok(*v);
            },
            InternalElement::NotSearched => {},
        }
        match take_first_match(&mut self.unparsed_atoms, MVHD) {
            Some(a) => {
                let x: Reference<Mvhd> = Reference::new(a.offset, a.len);
                self.movie_header = InternalElement::Searched(x);
                Ok(x)
            },
            None => Err(ParseError::MissingRequiredChild),
        }
    }

    /// Resolves the optional `clip` role: on first access the first matching
    /// child, if any, is claimed out of the unresolved list; the outcome —
    /// present or absent — is cached, and later accesses return it untouched.
    pub fn clip(&mut self) -> (r: Option<Reference<Clip>>)
        ensures
            match old(self).clip {
                InternalElement::Searched(v) => *final(self) == *old(self) && r == v,
                InternalElement::NotSearched => ({
                    let s = old(self).unparsed_atoms@;
                    let i = first_match(s, CLIP);
                    &&& final(self).clip == InternalElement::Searched(r)
                    &&& final(self).movie_header == old(self).movie_header &&& final(self).trak == old(self).trak &&& final(self).udta == old(self).udta &&& final(self).ctab == old(self).ctab &&& final(self).cmov == old(self).cmov &&& final(self).rmra == old(self).rmra
                    &&& if i >= 0 {
                        r matches Some(x) && x.offset == s[i].offset && x.len == s[i].len
                            && final(self).unparsed_atoms@ == s.remove(i)
                    } else {
                        r is None && final(self).unparsed_atoms@ == s
                    }
                }),
            },
    {
        match &self.clip {
            InternalElement::Searched(v) => {
                return *v;
            },
            InternalElement::NotSearched => {},
        }
        let r = match take_first_match(&mut self.unparsed_atoms, CLIP) {
            Some(a) => Some(Reference::<Clip>::new(a.offset, a.len)),
            None => None,
        };
        self.clip = InternalElement::Searched(r);
        r
    }

    /// Resolves the repeated `trak` role: on first access every matching child
    /// is claimed out of the unresolved list, in discovery order; the list is
    /// cached, and later accesses return it untouched.
    pub fn trak(&mut self) -> (r: Vec<Reference<Trak>>)
        ensures
            match old(self).trak {
                InternalElement::Searched(v) => *final(self) == *old(self) && r@ == v@,
                InternalElement::NotSearched => ({
                    let s = old(self).unparsed_atoms@;
                    let m = s.filter(|a: UnparsedAtom| a.header.0 == TRAK);
                    &&& r@.len() == m.len()
                    &&& forall|k: int|
                        0 <= k < m.len() ==> (#[trigger] r@[k]).offset == m[k].offset && r@[k].len
                            == m[k].len
                    &&& final(self).unparsed_atoms@ == s.filter(
                        |a: UnparsedAtom| a.header.0 != TRAK,
                    )
                    &&& final(self).trak matches InternalElement::Searched(y) && y@ == r@
                    &&& final(self).movie_header == old(self).movie_header &&& final(self).clip == old(self).clip &&& final(self).udta == old(self).udta &&& final(self).ctab == old(self).ctab &&& final(self).cmov == old(self).cmov &&& final(self).rmra == old(self).rmra
                }),
            },
    {
        match &self.trak {
            InternalElement::Searched(v) => {
                return copied(v);
            },
            InternalElement::NotSearched => {},
        }
        let found = take_all_matches(&mut self.unparsed_atoms, TRAK);
        let mut refs: Vec<Reference<Trak>> = Vec::new();
        let mut j: usize = 0;
        while j < found.len()
            invariant
                j <= found@.len(),
                refs@.len() == j,
                forall|k: int|
                    0 <= k < j ==> (#[trigger] refs@[k]).offset == found@[k].offset && refs@[k].len
                        == found@[k].len,
            decreases found@.len() - j,
        {
            refs.push(Reference::new(found[j].offset, found[j].len));
            j = j + 1;
        }
        let out = copied(&refs);
        self.trak = InternalElement::Searched(refs);
        out
    }

    /// Resolves the required `udta` role: on first access the first matching
    /// child is claimed out of the unresolved list and cached; later accesses
    /// return the cache untouched. A missing child is `MissingRequiredChild`.
    pub fn udta(&mut self) -> (r: Result<Reference<Udta>, ParseError>)
        ensures
            match old(self).udta {
                InternalElement::Searched(v) => *final(self) == *old(self) && (r matches Ok(x)
                    && x == v),
                InternalElement::NotSearched => ({
                    let s = old(self).unparsed_atoms@;
                    let i = first_match(s, UDTA);
                    if i >= 0 {
                        &&& r matches Ok(x) && x.offset == s[i].offset && x.len == s[i].len
                            && final(self).udta == InternalElement::Searched(x)
                        &&& final(self).unparsed_atoms@ == s.remove(i)
                        &&& final(self).movie_header == old(self).movie_header &&& final(self).clip == old(self).clip &&& final(self).trak == old(self).trak &&& final(self).ctab == old(self).ctab &&& final(self).cmov == old(self).cmov &&& final(self).rmra == old(self).rmra
                    } else {
                        &&& r matches Err(e) && e == ParseError::MissingRequiredChild
                        &&& *final(self) == *old(self)
                    }
                }),
            },
    {
        match &self.udta {
            InternalElement::Searched(v) => {
                return Ok(*v);
            },
            InternalElement::NotSearched => {},
        }
        match take_first_match(&mut self.unparsed_atoms, UDTA) {
            Some(a) => {
                let x: Reference<Udta> = Reference::new(a.offset, a.len);
                self.udta = InternalElement::Searched(x);
                Ok(x)
            },
            None => Err(ParseError::MissingRequiredChild),
        }
    }

    /// Resolves the required `ctab` role: on first access the first matching
    /// child is claimed out of the unresolved list and cached; later accesses
    /// return the cache untouched. A missing child is `MissingRequiredChild`.
    pub fn ctab(&mut self) -> (r: Result<Reference<Udta>, ParseError>)
        ensures
            match old(self).ctab {
                InternalElement::Searched(v) => *final(self) == *old(self) && (r matches Ok(x)
                    && x == v),
                InternalElement::NotSearched => ({
                    let s = old(self).unparsed_atoms@;
                    let i = first_match(s, UDTA);
                    if i >= 0 {
                        &&& r matches Ok(x) && x.offset == s[i].offset && x.len == s[i].len
                            && final(self).ctab == InternalElement::Searched(x)
                        &&& final(self).unparsed_atoms@ == s.remove(i)
                        &&& final(self).movie_header == old(self).movie_header &&& final(self).clip == old(self).clip &&& final(self).trak == old(self).trak &&& final(self).udta == old(self).udta &&& final(self).cmov == old(self).cmov &&& final(self).rmra == old(self).rmra
                    } else {
                        &&& r matches Err(e) && e == ParseError::MissingRequiredChild
                        &&& *final(self) == *old(self)
                    }
                }),
            },
    {
        match &self.ctab {
            InternalElement::Searched(v) => {
                return Ok(*v);
            },
            InternalElement::NotSearched => {},
        }
        match take_first_match(&mut self.unparsed_atoms, UDTA) {
            Some(a) => {
                let x: Reference<Udta> = Reference::new(a.offset, a.len);
                self.ctab = InternalElement::Searched(x);
                Ok(x)
            },
            None => Err(ParseError::MissingRequiredChild),
        }
    }

    /// Resolves the required `cmov` role: on first access the first matching
    /// child is claimed out of the unresolved list and cached; later accesses
    /// return the cache untouched. A missing child is `MissingRequiredChild`.
    pub fn cmov(&mut self) -> (r: Result<Reference<Cmov>, ParseError>)
        ensures
            match old(self).cmov {
                InternalElement::Searched(v) => *final(self) == *old(self) && (r matches Ok(x)
                    && x == v),
                InternalElement::NotSearched => ({
                    let s = old(self).unparsed_atoms@;
                    let i = first_match(s, CMOV);
                    if i >= 0 {
                        &&& r matches Ok(x) && x.offset == s[i].offset && x.len == s[i].len
                            && final(self).cmov == InternalElement::Searched(x)
                        &&& final(self).unparsed_atoms@ == s.remove(i)
                        &&& final(self).movie_header == old(self).movie_header &&& final(self).clip == old(self).clip &&& final(self).trak == old(self).trak &&& final(self).udta == old(self).udta &&& final(self).ctab == old(self).ctab &&& final(self).rmra == old(self).rmra
                    } else {
                        &&& r matches Err(e) && e == ParseError::MissingRequiredChild
                        &&& *final(self) == *old(self)
                    }
                }),
            },
    {
        match &self.cmov {
            InternalElement::Searched(v) => {
                return Ok(*v);
            },
            InternalElement::NotSearched => {},
        }
        match take_first_match(&mut self.unparsed_atoms, CMOV) {
            Some(a) => {
                let x: Reference<Cmov> = Reference::new(a.offset, a.len);
                self.cmov = InternalElement::Searched(x);
                Ok(x)
            },
            None => Err(ParseError::MissingRequiredChild),
        }
    }

    /// Resolves the required `rmra` role: on first access the first matching
    /// child is claimed out of the unresolved list and cached; later accesses
    /// return the cache untouched. A missing child is `MissingRequiredChild`.
    pub fn rmra(&mut self) -> (r: Result<Reference<Rmra>, ParseError>)
        ensures
            match old(self).rmra {
                InternalElement::Searched(v) => *final(self) == *old(self) && (r matches Ok(x)
                    && x == v),
                InternalElement::NotSearched => ({
                    let s = old(self).unparsed_atoms@;
                    let i = first_match(s, RMRA);
                    if i >= 0 {
                        &&& r matches Ok(x) && x.offset == s[i].offset && x.len == s[i].len
                            && final(self).rmra == InternalElement::Searched(x)
                        &&& final(self).unparsed_atoms@ == s.remove(i)
                        &&& final(self).movie_header == old(self).movie_header &&& final(self).clip == old(self).clip &&& final(self).trak == old(self).trak &&& final(self).udta == old(self).udta &&& final(self).ctab == old(self).ctab &&& final(self).cmov == old(self).cmov
                    } else {
                        &&& r matches Err(e) && e == ParseError::MissingRequiredChild
                        &&& *final(self) == *old(self)
                    }
                }),
            },
    {
        match &self.rmra {
            InternalElement::Searched(v) => {
                return Ok(*v);
            },
            InternalElement::NotSearched => {},
        }
        match take_first_match(&mut self.unparsed_atoms, RMRA) {
            Some(a) => {
                let x: Reference<Rmra> = Reference::new(a.offset, a.len);
                self.rmra = InternalElement::Searched(x);
                Ok(x)
            },
            None => Err(ParseError::MissingRequiredChild),
        }
    }

}

/// The `rmra` container atom: reference movie descriptors.
/// Created fully populated with its unresolved children; each named role is
/// resolved on demand and memoized, claiming its child out of the unresolved
/// list.
#[derive(Debug, Clone, PartialEq, Eq)]
pub struct Rmra {
    pub unparsed_atoms: Vec<UnparsedAtom>,
    pub reference_movie_descriptors: InternalElement<Vec<Reference<Rmda>>>,
}

/// The ghost content of a `Rmra`.
pub struct SpecRmra {
    pub unparsed_atoms: Seq<UnparsedAtom>,
    pub reference_movie_descriptors: InternalElement<Seq<SpecReference>>,
}

impl DeepView for Rmra {
    type V = SpecRmra;

    open spec fn deep_view(&self) -> SpecRmra {
        SpecRmra {
            unparsed_atoms: self.unparsed_atoms.deep_view(),
            reference_movie_descriptors: self.reference_movie_descriptors.deep_view(),
        }
    }
}

impl Parse for Rmra {
    open spec fn spec_parse(b: Seq<u8>, pos: int) -> Result<(SpecRmra, int), ParseError> {
        match spec_container_body(b, pos) {
            Err(e) => Err(e),
            Ok(rs) => Ok((SpecRmra { unparsed_atoms: rs.0, reference_movie_descriptors: InternalElement::NotSearched }, rs.1)),
        }
    }

    fn parse(mp4: &mut Mp4) -> (r: Result<Rmra, ParseError>) {
        let atoms = match parse_container_body(mp4) {
            Ok(v) => v,
            Err(e) => {
                return Err(e);
            },
        };
        Ok(
            Rmra {
                unparsed_atoms: atoms,
                reference_movie_descriptors: InternalElement::NotSearched,
            },
        )
    }
}

impl Rmra {
    /// Resolves the repeated `reference_movie_descriptors` role: on first access every matching child
    /// is claimed out of the unresolved list, in discovery order; the list is
    /// cached, and later accesses return it untouched.
    pub fn reference_movie_descriptors(&mut self) -> (r: Vec<Reference<Rmda>>)
        ensures
            match old(self).reference_movie_descriptors {
                InternalElement::Searched(v) => *final(self) == *old(self) && r@ == v@,
                InternalElement::NotSearched => ({
                    let s = old(self).unparsed_atoms@;
                    let m = s.filter(|a: UnparsedAtom| a.header.0 == RMDA);
                    &&& r@.len() == m.len()
                    &&& forall|k: int|
                        0 <= k < m.len() ==> (#[trigger] r@[k]).offset == m[k].offset && r@[k].len
                            == m[k].len
                    &&& final(self).unparsed_atoms@ == s.filter(
                        |a: UnparsedAtom| a.header.0 != RMDA,
                    )
                    &&& final(self).reference_movie_descriptors matches InternalElement::Searched(y) && y@ == r@
                    
                }),
            },
    {
        match &self.reference_movie_descriptors {
            InternalElement::Searched(v) => {
                return copied(v);
            },
            InternalElement::NotSearched => {},
        }
        let found = take_all_matches(&mut self.unparsed_atoms, RMDA);
        let mut refs: Vec<Reference<Rmda>> = Vec::new();
        let mut j: usize = 0;
        while j < found.len()
            invariant
                j <= found@.len(),
                refs@.len() == j,
                forall|k: int|
                    0 <= k < j ==> (#[trigger] refs@[k]).offset == found@[k].offset && refs@[k].len
                        == found@[k].len,
            decreases found@.len() - j,
        {
            refs.push(Reference::new(found[j].offset, found[j].len));
            j = j + 1;
        }
        let out = copied(&refs);
        self.reference_movie_descriptors = InternalElement::Searched(refs);
        out
    }

}

/// The `mdia` container atom: one track's media information.
/// Created fully populated with its unresolved children; each named role is
/// resolved on demand and memoized, claiming its child out of the unresolved
/// list.
#[derive(Debug, Clone, PartialEq, Eq)]
pub struct Mdia {
    pub unparsed_atoms: Vec<UnparsedAtom>,
    pub mdhd: InternalElement<Reference<Mdhd>>,
    pub elng: InternalElement<Option<Reference<Elng>>>,
    pub hdlr: InternalElement<Option<Reference<Hdlr>>>,
    pub minf: InternalElement<Option<Reference<Minf>>>,
    pub udta: InternalElement<Option<Reference<Udta>>>,
}

/// The ghost content of a `Mdia`.
pub struct SpecMdia {
    pub unparsed_atoms: Seq<UnparsedAtom>,
    pub mdhd: InternalElement<SpecReference>,
    pub elng: InternalElement<Option<SpecReference>>,
    pub hdlr: InternalElement<Option<SpecReference>>,
    pub minf: InternalElement<Option<SpecReference>>,
    pub udta: InternalElement<Option<SpecReference>>,
}

impl DeepView for Mdia {
    type V = SpecMdia;

    open spec fn deep_view(&self) -> SpecMdia {
        SpecMdia {
            unparsed_atoms: self.unparsed_atoms.deep_view(),
            mdhd: self.mdhd.deep_view(),
            elng: self.elng.deep_view(),
            hdlr: self.hdlr.deep_view(),
            minf: self.minf.deep_view(),
            udta: self.udta.deep_view(),
        }
    }
}

impl Parse for Mdia {
    open spec fn spec_parse(b: Seq<u8>, pos: int) -> Result<(SpecMdia, int), ParseError> {
        match spec_container_body(b, pos) {
            Err(e) => Err(e),
            Ok(rs) => Ok((SpecMdia { unparsed_atoms: rs.0, mdhd: InternalElement::NotSearched, elng: InternalElement::NotSearched, hdlr: InternalElement::NotSearched, minf: InternalElement::NotSearched, udta: InternalElement::NotSearched }, rs.1)),
        }
    }

    fn parse(mp4: &mut Mp4) -> (r: Result<Mdia, ParseError>) {
        let atoms = match parse_container_body(mp4) {
            Ok(v) => v,
            Err(e) => {
                return Err(e);
            },
        };
        Ok(
            Mdia {
                unparsed_atoms: atoms,
                mdhd: InternalElement::NotSearched,
                elng: InternalElement::NotSearched,
                hdlr: InternalElement::NotSearched,
                minf: InternalElement::NotSearched,
                udta: InternalElement::NotSearched,
            },
        )
    }
}

impl Mdia {
    /// Resolves the required `mdhd` role: on first access the first matching
    /// child is claimed out of the unresolved list and cached; later accesses
    /// return the cache untouched. A missing child is `MissingRequiredChild`.
    pub fn mdhd(&mut self) -> (r: Result<Reference<Mdhd>, ParseError>)
        ensures
            match old(self).mdhd {
                InternalElement::Searched(v) => *final(self) == *old(self) && (r matches Ok(x)
                    && x == v),
                InternalElement::NotSearched => ({
                    let s = old(self).unparsed_atoms@;
                    let i = first_match(s, MDHD);
                    if i >= 0 {
                        &&& r matches Ok(x) && x.offset == s[i].offset && x.len == s[i].len
                            && final(self).mdhd == InternalElement::Searched(x)
                        &&& final(self).unparsed_atoms@ == s.remove(i)
                        &&& final(self).elng == old(self).elng &&& final(self).hdlr == old(self).hdlr &&& final(self).minf == old(self).minf &&& final(self).udta == old(self).udta
                    } else {
                        &&& r matches Err(e) && e == ParseError::MissingRequiredChild
                        &&& *final(self) == *old(self)
                    }
                }),
            },
    {
        match &self.mdhd {
            InternalElement::Searched(v) => {
                return Ok(*v);
            },
            InternalElement::NotSearched => {},
        }
        match take_first_match(&mut self.unparsed_atoms, MDHD) {
            Some(a) => {
                let x: Reference<Mdhd> = Reference::new(a.offset, a.len);
                self.mdhd = InternalElement::Searched(x);
                Ok(x)
            },
            None => Err(ParseError::MissingRequiredChild),
        }
    }

    /// Resolves the optional `elng` role: on first access the first matching
    /// child, if any, is claimed out of the unresolved list; the outcome —
    /// present or absent — is cached, and later accesses return it untouched.
    pub fn elng(&mut self) -> (r: Option<Reference<Elng>>)
        ensures
            match old(self).elng {
                InternalElement::Searched(v) => *final(self) == *old(self) && r == v,
                InternalElement::NotSearched => ({
                    let s = old(self).unparsed_atoms@;
                    let i = first_match(s, ELNG);
                    &&& final(self).elng == InternalElement::Searched(r)
                    &&& final(self).mdhd == old(self).mdhd &&& final(self).hdlr == old(self).hdlr &&& final(self).minf == old(self).minf &&& final(self).udta == old(self).udta
                    &&& if i >= 0 {
                        r matches Some(x) && x.offset == s[i].offset && x.len == s[i].len
                            && final(self).unparsed_atoms@ == s.remove(i)
                    } else {
                        r is None && final(self).unparsed_atoms@ == s
                    }
                }),
            },
    {
        match &self.elng {
            InternalElement::Searched(v) => {
                return *v;
            },
            InternalElement::NotSearched => {},
        }
        let r = match take_first_match(&mut self.unparsed_atoms, ELNG) {
            Some(a) => Some(Reference::<Elng>::new(a.offset, a.len)),
            None => None,
        };
        self.elng = InternalElement::Searched(r);
        r
    }

    /// Resolves the optional `hdlr` role: on first access the first matching
    /// child, if any, is claimed out of the unresolved list; the outcome —
    /// present or absent — is cached, and later accesses return it untouched.
    pub fn hdlr(&mut self) -> (r: Option<Reference<Hdlr>>)
        ensures
            match old(self).hdlr {
                InternalElement::Searched(v) => *final(self) == *old(self) && r == v,
                InternalElement::NotSearched => ({
                    let s = old(self).unparsed_atoms@;
                    let i = first_match(s, HDLR);
                    &&& final(self).hdlr == InternalElement::Searched(r)
                    &&& final(self).mdhd == old(self).mdhd &&& final(self).elng == old(self).elng &&& final(self).minf == old(self).minf &&& final(self).udta == old(self).udta
                    &&& if i >= 0 {
                        r matches Some(x) && x.offset == s[i].offset && x.len == s[i].len
                            && final(self).unparsed_atoms@ == s.remove(i)
                    } else {
                        r is None && final(self).unparsed_atoms@ == s
                    }
                }),
            },
    {
        match &self.hdlr {
            InternalElement::Searched(v) => {
                return *v;
            },
            InternalElement::NotSearched => {},
        }
        let r = match take_first_match(&mut self.unparsed_atoms, HDLR) {
            Some(a) => Some(Reference::<Hdlr>::new(a.offset, a.len)),
            None => None,
        };
        self.hdlr = InternalElement::Searched(r);
        r
    }

    /// Resolves the optional `minf` role: on first access the first matching
    /// child, if any, is claimed out of the unresolved list; the outcome —
    /// present or absent — is cached, and later accesses return it untouched.
    pub fn minf(&mut self) -> (r: Option<Reference<Minf>>)
        ensures
            match old(self).minf {
                InternalElement::Searched(v) => *final(self) == *old(self) && r == v,
                InternalElement::NotSearched => ({
                    let s = old(self).unparsed_atoms@;
                    let i = first_match(s, MINF);
                    &&& final(self).minf == InternalElement::Searched(r)
                    &&& final(self).mdhd == old(self).mdhd &&& final(self).elng == old(self).elng &&& final(self).hdlr == old(self).hdlr &&& final(self).udta == old(self).udta
                    &&& if i >= 0 {
                        r matches Some(x) && x.offset == s[i].offset && x.len == s[i].len
                            && final(self).unparsed_atoms@ == s.remove(i)
                    } else {
                        r is None && final(self).unparsed_atoms@ == s
                    }
                }),
            },
    {
        match &self.minf {
            InternalElement::Searched(v) => {
                return *v;
            },
            InternalElement::NotSearched => {},
        }
        let r = match take_first_match(&mut self.unparsed_atoms, MINF) {
            Some(a) => Some(Reference::<Minf>::new(a.offset, a.len)),
            None => None,
        };
        self.minf = InternalElement::Searched(r);
        r
    }

    /// Resolves the optional `udta` role: on first access the first matching
    /// child, if any, is claimed out of the unresolved list; the outcome —
    /// present or absent — is cached, and later accesses return it untouched.
    pub fn udta(&mut self) -> (r: Option<Reference<Udta>>)
        ensures
            match old(self).udta {
                InternalElement::Searched(v) => *final(self) == *old(self) && r == v,
                InternalElement::NotSearched => ({
                    let s = old(self).unparsed_atoms@;
                    let i = first_match(s, UDTA);
                    &&& final(self).udta == InternalElement::Searched(r)
                    &&& final(self).mdhd == old(self).mdhd &&& final(self).elng == old(self).elng &&& final(self).hdlr == old(self).hdlr &&& final(self).minf == old(self).minf
                    &&& if i >= 0 {
                        r matches Some(x) && x.offset == s[i].offset && x.len == s[i].len
                            && final(self).unparsed_atoms@ == s.remove(i)
                    } else {
                        r is None && final(self).unparsed_atoms@ == s
                    }
                }),
            },
    {
        match &self.udta {
            InternalElement::Searched(v) => {
                return *v;
            },
            InternalElement::NotSearched => {},
        }
        let r = match take_first_match(&mut self.unparsed_atoms, UDTA) {
            Some(a) => Some(Reference::<Udta>::new(a.offset, a.len)),
            None => None,
        };
        self.udta = InternalElement::Searched(r);
        r
    }

}

/// The `minf` container atom: media information handlers and the sample
/// table.
/// Created fully populated with its unresolved children; each named role is
/// resolved on demand and memoized, claiming its child out of the unresolved
/// list.
#[derive(Debug, Clone, PartialEq, Eq)]
pub struct Minf {
    pub unparsed_atoms: Vec<UnparsedAtom>,
    pub vmhd: InternalElement<Option<Reference<Vmhd>>>,
    pub smhd: InternalElement<Option<Reference<Smhd>>>,
    pub hdlr: InternalElement<Option<Reference<Hdlr>>>,
    pub gmhd: InternalElement<Option<Reference<Gmhd>>>,
    pub dinf: InternalElement<Option<Reference<Dinf>>>,
    pub stbl: InternalElement<Option<Reference<Stbl>>>,
}

/// The ghost content of a `Minf`.
pub struct SpecMinf {
    pub unparsed_atoms: Seq<UnparsedAtom>,
    pub vmhd: InternalElement<Option<SpecReference>>,
    pub smhd: InternalElement<Option<SpecReference>>,
    pub hdlr: InternalElement<Option<SpecReference>>,
    pub gmhd: InternalElement<Option<SpecReference>>,
    pub dinf: InternalElement<Option<SpecReference>>,
    pub stbl: InternalElement<Option<SpecReference>>,
}

impl DeepView for Minf {
    type V = SpecMinf;

    open spec fn deep_view(&self) -> SpecMinf {
        SpecMinf {
            unparsed_atoms: self.unparsed_atoms.deep_view(),
            vmhd: self.vmhd.deep_view(),
            smhd: self.smhd.deep_view(),
            hdlr: self.hdlr.deep_view(),
            gmhd: self.gmhd.deep_view(),
            dinf: self.dinf.deep_view(),
            stbl: self.stbl.deep_view(),
        }
    }
}

impl Parse for Minf {
    open spec fn spec_parse(b: Seq<u8>, pos: int) -> Result<(SpecMinf, int), ParseError> {
        match spec_container_body(b, pos) {
            Err(e) => Err(e),
            Ok(rs) => Ok((SpecMinf { unparsed_atoms: rs.0, vmhd: InternalElement::NotSearched, smhd: InternalElement::NotSearched, hdlr: InternalElement::NotSearched, gmhd: InternalElement::NotSearched, dinf: InternalElement::NotSearched, stbl: InternalElement::NotSearched }, rs.1)),
        }
    }

    fn parse(mp4: &mut Mp4) -> (r: Result<Minf, ParseError>) {
        let atoms = match parse_container_body(mp4) {
            Ok(v) => v,
            Err(e) => {
                return Err(e);
            },
        };
        Ok(
            Minf {
                unparsed_atoms: atoms,
                vmhd: InternalElement::NotSearched,
                smhd: InternalElement::NotSearched,
                hdlr: InternalElement::NotSearched,
                gmhd: InternalElement::NotSearched,
                dinf: InternalElement::NotSearched,
                stbl: InternalElement::NotSearched,
            },
        )
    }
}

impl Minf {
    /// Resolves the optional `vmhd` role: on first access the first matching
    /// child, if any, is claimed out of the unresolved list; the outcome —
    /// present or absent — is cached, and later accesses return it untouched.
    pub fn vmhd(&mut self) -> (r: Option<Reference<Vmhd>>)
        ensures
            match old(self).vmhd {
                InternalElement::Searched(v) => *final(self) == *old(self) && r == v,
                InternalElement::NotSearched => ({
                    let s = old(self).unparsed_atoms@;
                    let i = first_match(s, VMHD);
                    &&& final(self).vmhd == InternalElement::Searched(r)
                    &&& final(self).smhd == old(self).smhd &&& final(self).hdlr == old(self).hdlr &&& final(self).gmhd == old(self).gmhd &&& final(self).dinf == old(self).dinf &&& final(self).stbl == old(self).stbl
                    &&& if i >= 0 {
                        r matches Some(x) && x.offset == s[i].offset && x.len == s[i].len
                            && final(self).unparsed_atoms@ == s.remove(i)
                    } else {
                        r is None && final(self).unparsed_atoms@ == s
                    }
                }),
            },
    {
        match &self.vmhd {
            InternalElement::Searched(v) => {
                return *v;
            },
            InternalElement::NotSearched => {},
        }
        let r = match take_first_match(&mut self.unparsed_atoms, VMHD) {
            Some(a) => Some(Reference::<Vmhd>::new(a.offset, a.len)),
            None => None,
        };
        self.vmhd = InternalElement::Searched(r);
        r
    }

    /// Resolves the optional `smhd` role: on first access the first matching
    /// child, if any, is claimed out of the unresolved list; the outcome —
    /// present or absent — is cached, and later accesses return it untouched.
    pub fn smhd(&mut self) -> (r: Option<Reference<Smhd>>)
        ensures
            match old(self).smhd {
                InternalElement::Searched(v) => *final(self) == *old(self) && r == v,
                InternalElement::NotSearched => ({
                    let s = old(self).unparsed_atoms@;
                    let i = first_match(s, SMHD);
                    &&& final(self).smhd == InternalElement::Searched(r)
                    &&& final(self).vmhd == old(self).vmhd &&& final(self).hdlr == old(self).hdlr &&& final(self).gmhd == old(self).gmhd &&& final(self).dinf == old(self).dinf &&& final(self).stbl == old(self).stbl
                    &&& if i >= 0 {
                        r matches Some(x) && x.offset == s[i].offset && x.len == s[i].len
                            && final(self).unparsed_atoms@ == s.remove(i)
                    } else {
                        r is None && final(self).unparsed_atoms@ == s
                    }
                }),
            },
    {
        match &self.smhd {
            InternalElement::Searched(v) => {
                return *v;
            },
            InternalElement::NotSearched => {},
        }
        let r = match take_first_match(&mut self.unparsed_atoms, SMHD) {
            Some(a) => Some(Reference::<Smhd>::new(a.offset, a.len)),
            None => None,
        };
        self.smhd = InternalElement::Searched(r);
        r
    }

    /// Resolves the optional `hdlr` role: on first access the first matching
    /// child, if any, is claimed out of the unresolved list; the outcome —
    /// present or absent — is cached, and later accesses return it untouched.
    pub fn hdlr(&mut self) -> (r: Option<Reference<Hdlr>>)
        ensures
            match old(self).hdlr {
                InternalElement::Searched(v) => *final(self) == *old(self) && r == v,
                InternalElement::NotSearched => ({
                    let s = old(self).unparsed_atoms@;
                    let i = first_match(s, HDLR);
                    &&& final(self).hdlr == InternalElement::Searched(r)
                    &&& final(self).vmhd == old(self).vmhd &&& final(self).smhd == old(self).smhd &&& final(self).gmhd == old(self).gmhd &&& final(self).dinf == old(self).dinf &&& final(self).stbl == old(self).stbl
                    &&& if i >= 0 {
                        r matches Some(x) && x.offset == s[i].offset && x.len == s[i].len
                            && final(self).unparsed_atoms@ == s.remove(i)
                    } else {
                        r is None && final(self).unparsed_atoms@ == s
                    }
                }),
            },
    {
        match &self.hdlr {
            InternalElement::Searched(v) => {
                return *v;
            },
            InternalElement::NotSearched => {},
        }
        let r = match take_first_match(&mut self.unparsed_atoms, HDLR) {
            Some(a) => Some(Reference::<Hdlr>::new(a.offset, a.len)),
            None => None,
        };
        self.hdlr = InternalElement::Searched(r);
        r
    }

    /// Resolves the optional `gmhd` role: on first access the first matching
    /// child, if any, is claimed out of the unresolved list; the outcome —
    /// present or absent — is cached, and later accesses return it untouched.
    pub fn gmhd(&mut self) -> (r: Option<Reference<Gmhd>>)
        ensures
            match old(self).gmhd {
                InternalElement::Searched(v) => *final(self) == *old(self) && r == v,
                InternalElement::NotSearched => ({
                    let s = old(self).unparsed_atoms@;
                    let i = first_match(s, GMHD);
                    &&& final(self).gmhd == InternalElement::Searched(r)
                    &&& final(self).vmhd == old(self).vmhd &&& final(self).smhd == old(self).smhd &&& final(self).hdlr == old(self).hdlr &&& final(self).dinf == old(self).dinf &&& final(self).stbl == old(self).stbl
                    &&& if i >= 0 {
                        r matches Some(x) && x.offset == s[i].offset && x.len == s[i].len
                            && final(self).unparsed_atoms@ == s.remove(i)
                    } else {
                        r is None && final(self).unparsed_atoms@ == s
                    }
                }),
            },
    {
        match &self.gmhd {
            InternalElement::Searched(v) => {
                return *v;
            },
            InternalElement::NotSearched => {},
        }
        let r = match take_first_match(&mut self.unparsed_atoms, GMHD) {
            Some(a) => Some(Reference::<Gmhd>::new(a.offset, a.len)),
            None => None,
        };
        self.gmhd = InternalElement::Searched(r);
        r
    }

    /// Resolves the optional `dinf` role: on first access the first matching
    /// child, if any, is claimed out of the unresolved list; the outcome —
    /// present or absent — is cached, and later accesses return it untouched.
    pub fn dinf(&mut self) -> (r: Option<Reference<Dinf>>)
        ensures
            match old(self).dinf {
                InternalElement::Searched(v) => *final(self) == *old(self) && r == v,
                InternalElement::NotSearched => ({
                    let s = old(self).unparsed_atoms@;
                    let i = first_match(s, DINF);
                    &&& final(self).dinf == InternalElement::Searched(r)
                    &&& final(self).vmhd == old(self).vmhd &&& final(self).smhd == old(self).smhd &&& final(self).hdlr == old(self).hdlr &&& final(self).gmhd == old(self).gmhd &&& final(self).stbl == old(self).stbl
                    &&& if i >= 0 {
                        r matches Some(x) && x.offset == s[i].offset && x.len == s[i].len
                            && final(self).unparsed_atoms@ == s.remove(i)
                    } else {
                        r is None && final(self).unparsed_atoms@ == s
                    }
                }),
            },
    {
        match &self.dinf {
            InternalElement::Searched(v) => {
                return *v;
            },
            InternalElement::NotSearched => {},
        }
        let r = match take_first_match(&mut self.unparsed_atoms, DINF) {
            Some(a) => Some(Reference::<Dinf>::new(a.offset, a.len)),
            None => None,
        };
        self.dinf = InternalElement::Searched(r);
        r
    }

    /// Resolves the optional `stbl` role: on first access the first matching
    /// child, if any, is claimed out of the unresolved list; the outcome —
    /// present or absent — is cached, and later accesses return it untouched.
    pub fn stbl(&mut self) -> (r: Option<Reference<Stbl>>)
        ensures
            match old(self).stbl {
                InternalElement::Searched(v) => *final(self) == *old(self) && r == v,
                InternalElement::NotSearched => ({
                    let s = old(self).unparsed_atoms@;
                    let i = first_match(s, STBL);
                    &&& final(self).stbl == InternalElement::Searched(r)
                    &&& final(self).vmhd == old(self).vmhd &&& final(self).smhd == old(self).smhd &&& final(self).hdlr == old(self).hdlr &&& final(self).gmhd == old(self).gmhd &&& final(self).dinf == old(self).dinf
                    &&& if i >= 0 {
                        r matches Some(x) && x.offset == s[i].offset && x.len == s[i].len
                            && final(self).unparsed_atoms@ == s.remove(i)
                    } else {
                        r is None && final(self).unparsed_atoms@ == s
                    }
                }),
            },
    {
        match &self.stbl {
            InternalElement::Searched(v) => {
                return *v;
            },
            InternalElement::NotSearched => {},
        }
        let r = match take_first_match(&mut self.unparsed_atoms, STBL) {
            Some(a) => Some(Reference::<Stbl>::new(a.offset, a.len)),
            None => None,
        };
        self.stbl = InternalElement::Searched(r);
        r
    }

}

/// The `dinf` container atom: where the media data lives.
/// Created fully populated with its unresolved children; each named role is
/// resolved on demand and memoized, claiming its child out of the unresolved
/// list.
#[derive(Debug, Clone, PartialEq, Eq)]
pub struct Dinf {
    pub unparsed_atoms: Vec<UnparsedAtom>,
    pub data_reference: InternalElement<Reference<Dref>>,
}

/// The ghost content of a `Dinf`.
pub struct SpecDinf {
    pub unparsed_atoms: Seq<UnparsedAtom>,
    pub data_reference: InternalElement<SpecReference>,
}

impl DeepView for Dinf {
    type V = SpecDinf;

    open spec fn deep_view(&self) -> SpecDinf {
        SpecDinf {
            unparsed_atoms: self.unparsed_atoms.deep_view(),
            data_reference: self.data_reference.deep_view(),
        }
    }
}

impl Parse for Dinf {
    open spec fn spec_parse(b: Seq<u8>, pos: int) -> Result<(SpecDinf, int), ParseError> {
        match spec_container_body(b, pos) {
            Err(e) => Err(e),
            Ok(rs) => Ok((SpecDinf { unparsed_atoms: rs.0, data_reference: InternalElement::NotSearched }, rs.1)),
        }
    }

    fn parse(mp4: &mut Mp4) -> (r: Result<Dinf, ParseError>) {
        let atoms = match parse_container_body(mp4) {
            Ok(v) => v,
            Err(e) => {
                return Err(e);
            },
        };
        Ok(
            Dinf {
                unparsed_atoms: atoms,
                data_reference: InternalElement::NotSearched,
            },
        )
    }
}

impl Dinf {
    /// Resolves the required `data_reference` role: on first access the first matching
    /// child is claimed out of the unresolved list and cached; later accesses
    /// return the cache untouched. A missing child is `MissingRequiredChild`.
    pub fn data_reference(&mut self) -> (r: Result<Reference<Dref>, ParseError>)
        ensures
            match old(self).data_reference {
                InternalElement::Searched(v) => *final(self) == *old(self) && (r matches Ok(x)
                    && x == v),
                InternalElement::NotSearched => ({
                    let s = old(self).unparsed_atoms@;
                    let i = first_match(s, DREF);
                    if i >= 0 {
                        &&& r matches Ok(x) && x.offset == s[i].offset && x.len == s[i].len
                            && final(self).data_reference == InternalElement::Searched(x)
                        &&& final(self).unparsed_atoms@ == s.remove(i)
                        
                    } else {
                        &&& r matches Err(e) && e == ParseError::MissingRequiredChild
                        &&& *final(self) == *old(self)
                    }
                }),
            },
    {
        match &self.data_reference {
            InternalElement::Searched(v) => {
                return Ok(*v);
            },
            InternalElement::NotSearched => {},
        }
        match take_first_match(&mut self.unparsed_atoms, DREF) {
            Some(a) => {
                let x: Reference<Dref> = Reference::new(a.offset, a.len);
                self.data_reference = InternalElement::Searched(x);
                Ok(x)
            },
            None => Err(ParseError::MissingRequiredChild),
        }
    }

}

/// The `stbl` container atom: the sample tables that map playback
/// times to byte ranges in the media data.
/// Created fully populated with its unresolved children; each named role is
/// resolved on demand and memoized, claiming its child out of the unresolved
/// list.
#[derive(Debug, Clone, PartialEq, Eq)]
pub struct Stbl {
    pub unparsed_atoms: Vec<UnparsedAtom>,
    pub sample_description: InternalElement<Option<Reference<Stsd>>>,
    pub time_to_sample: InternalElement<Option<Reference<Stts>>>,
    pub composition_offset: InternalElement<Option<Reference<Ctts>>>,
    pub cslg: InternalElement<Option<Reference<Cslg>>>,
    pub sync_sample: InternalElement<Option<Reference<Stss>>>,
    pub stps: InternalElement<Option<Reference<Stps>>>,
    pub sample_to_chunk: InternalElement<Option<Reference<Stsc>>>,
    pub sample_size: InternalElement<Option<Reference<Stsz>>>,
    pub chunk_offset: InternalElement<Option<Reference<Stco>>>,
    pub shadow_sync: InternalElement<Option<Reference<Stsh>>>,
    pub sgpd: InternalElement<Option<Reference<Sgpd>>>,
    pub sbgp: InternalElement<Option<Reference<Sbgp>>>,
    pub sdtp: InternalElement<Option<Reference<Sdtp>>>,
}

/// The ghost content of a `Stbl`.
pub struct SpecStbl {
    pub unparsed_atoms: Seq<UnparsedAtom>,
    pub sample_description: InternalElement<Option<SpecReference>>,
    pub time_to_sample: InternalElement<Option<SpecReference>>,
    pub composition_offset: InternalElement<Option<SpecReference>>,
    pub cslg: InternalElement<Option<SpecReference>>,
    pub sync_sample: InternalElement<Option<SpecReference>>,
    pub stps: InternalElement<Option<SpecReference>>,
    pub sample_to_chunk: InternalElement<Option<SpecReference>>,
    pub sample_size: InternalElement<Option<SpecReference>>,
    pub chunk_offset: InternalElement<Option<SpecReference>>,
    pub shadow_sync: InternalElement<Option<SpecReference>>,
    pub sgpd: InternalElement<Option<SpecReference>>,
    pub sbgp: InternalElement<Option<SpecReference>>,
    pub sdtp: InternalElement<Option<SpecReference>>,
}

impl DeepView for Stbl {
    type V = SpecStbl;

    open spec fn deep_view(&self) -> SpecStbl {
        SpecStbl {
            unparsed_atoms: self.unparsed_atoms.deep_view(),
            sample_description: self.sample_description.deep_view(),
            time_to_sample: self.time_to_sample.deep_view(),
            composition_offset: self.composition_offset.deep_view(),
            cslg: self.cslg.deep_view(),
            sync_sample: self.sync_sample.deep_view(),
            stps: self.stps.deep_view(),
            sample_to_chunk: self.sample_to_chunk.deep_view(),
            sample_size: self.sample_size.deep_view(),
            chunk_offset: self.chunk_offset.deep_view(),
            shadow_sync: self.shadow_sync.deep_view(),
            sgpd: self.sgpd.deep_view(),
            sbgp: self.sbgp.deep_view(),
            sdtp: self.sdtp.deep_view(),
        }
    }
}

impl Parse for Stbl {
    open spec fn spec_parse(b: Seq<u8>, pos: int) -> Result<(SpecStbl, int), ParseError> {
        match spec_container_body(b, pos) {
            Err(e) => Err(e),
            Ok(rs) => Ok((SpecStbl { unparsed_atoms: rs.0, sample_description: InternalElement::NotSearched, time_to_sample: InternalElement::NotSearched, composition_offset: InternalElement::NotSearched, cslg: InternalElement::NotSearched, sync_sample: InternalElement::NotSearched, stps: InternalElement::NotSearched, sample_to_chunk: InternalElement::NotSearched, sample_size: InternalElement::NotSearched, chunk_offset: InternalElement::NotSearched, shadow_sync: InternalElement::NotSearched, sgpd: InternalElement::NotSearched, sbgp: InternalElement::NotSearched, sdtp: InternalElement::NotSearched }, rs.1)),
        }
    }

    fn parse(mp4: &mut Mp4) -> (r: Result<Stbl, ParseError>) {
        let atoms = match parse_container_body(mp4) {
            Ok(v) => v,
            Err(e) => {
                return Err(e);
            },
        };
        Ok(
            Stbl {
                unparsed_atoms: atoms,
                sample_description: InternalElement::NotSearched,
                time_to_sample: InternalElement::NotSearched,
                composition_offset: InternalElement::NotSearched,
                cslg: InternalElement::NotSearched,
                sync_sample: InternalElement::NotSearched,
                stps: InternalElement::NotSearched,
                sample_to_chunk: InternalElement::NotSearched,
                sample_size: InternalElement::NotSearched,
                chunk_offset: InternalElement::NotSearched,
                shadow_sync: InternalElement::NotSearched,
                sgpd: InternalElement::NotSearched,
                sbgp: InternalElement::NotSearched,
                sdtp: InternalElement::NotSearched,
            },
        )
    }
}

impl Stbl {
    /// Resolves the optional `sample_description` role: on first access the first matching
    /// child, if any, is claimed out of the unresolved list; the outcome —
    /// present or absent — is cached, and later accesses return it untouched.
    pub fn sample_description(&mut self) -> (r: Option<Reference<Stsd>>)
        ensures
            match old(self).sample_description {
                InternalElement::Searched(v) => *final(self) == *old(self) && r == v,
                InternalElement::NotSearched => ({
                    let s = old(self).unparsed_atoms@;
                    let i = first_match(s, STSD);
                    &&& final(self).sample_description == InternalElement::Searched(r)
                    &&& final(self).time_to_sample == old(self).time_to_sample &&& final(self).composition_offset == old(self).composition_offset &&& final(self).cslg == old(self).cslg &&& final(self).sync_sample == old(self).sync_sample &&& final(self).stps == old(self).stps &&& final(self).sample_to_chunk == old(self).sample_to_chunk &&& final(self).sample_size == old(self).sample_size &&& final(self).chunk_offset == old(self).chunk_offset &&& final(self).shadow_sync == old(self).shadow_sync &&& final(self).sgpd == old(self).sgpd &&& final(self).sbgp == old(self).sbgp &&& final(self).sdtp == old(self).sdtp
                    &&& if i >= 0 {
                        r matches Some(x) && x.offset == s[i].offset && x.len == s[i].len
                            && final(self).unparsed_atoms@ == s.remove(i)
                    } else {
                        r is None && final(self).unparsed_atoms@ == s
                    }
                }),
            },
    {
        match &self.sample_description {
            InternalElement::Searched(v) => {
                return *v;
            },
            InternalElement::NotSearched => {},
        }
        let r = match take_first_match(&mut self.unparsed_atoms, STSD) {
            Some(a) => Some(Reference::<Stsd>::new(a.offset, a.len)),
            None => None,
        };
        self.sample_description = InternalElement::Searched(r);
        r
    }

    /// Resolves the optional `time_to_sample` role: on first access the first matching
    /// child, if any, is claimed out of the unresolved list; the outcome —
    /// present or absent — is cached, and later accesses return it untouched.
    pub fn time_to_sample(&mut self) -> (r: Option<Reference<Stts>>)
        ensures
            match old(self).time_to_sample {
                InternalElement::Searched(v) => *final(self) == *old(self) && r == v,
                InternalElement::NotSearched => ({
                    let s = old(self).unparsed_atoms@;
                    let i = first_match(s, STTS);
                    &&& final(self).time_to_sample == InternalElement::Searched(r)
                    &&& final(self).sample_description == old(self).sample_description &&& final(self).composition_offset == old(self).composition_offset &&& final(self).cslg == old(self).cslg &&& final(self).sync_sample == old(self).sync_sample &&& final(self).stps == old(self).stps &&& final(self).sample_to_chunk == old(self).sample_to_chunk &&& final(self).sample_size == old(self).sample_size &&& final(self).chunk_offset == old(self).chunk_offset &&& final(self).shadow_sync == old(self).shadow_sync &&& final(self).sgpd == old(self).sgpd &&& final(self).sbgp == old(self).sbgp &&& final(self).sdtp == old(self).sdtp
                    &&& if i >= 0 {
                        r matches Some(x) && x.offset == s[i].offset && x.len == s[i].len
                            && final(self).unparsed_atoms@ == s.remove(i)
                    } else {
                        r is None && final(self).unparsed_atoms@ == s
                    }
                }),
            },
    {
        match &self.time_to_sample {
            InternalElement::Searched(v) => {
                return *v;
            },
            InternalElement::NotSearched => {},
        }
        let r = match take_first_match(&mut self.unparsed_atoms, STTS) {
            Some(a) => Some(Reference::<Stts>::new(a.offset, a.len)),
            None => None,
        };
        self.time_to_sample = InternalElement::Searched(r);
        r
    }

    /// Resolves the optional `composition_offset` role: on first access the first matching
    /// child, if any, is claimed out of the unresolved list; the outcome —
    /// present or absent — is cached, and later accesses return it untouched.
    pub fn composition_offset(&mut self) -> (r: Option<Reference<Ctts>>)
        ensures
            match old(self).composition_offset {
                InternalElement::Searched(v) => *final(self) == *old(self) && r == v,
                InternalElement::NotSearched => ({
                    let s = old(self).unparsed_atoms@;
                    let i = first_match(s, CTTS);
                    &&& final(self).composition_offset == InternalElement::Searched(r)
                    &&& final(self).sample_description == old(self).sample_description &&& final(self).time_to_sample == old(self).time_to_sample &&& final(self).cslg == old(self).cslg &&& final(self).sync_sample == old(self).sync_sample &&& final(self).stps == old(self).stps &&& final(self).sample_to_chunk == old(self).sample_to_chunk &&& final(self).sample_size == old(self).sample_size &&& final(self).chunk_offset == old(self).chunk_offset &&& final(self).shadow_sync == old(self).shadow_sync &&& final(self).sgpd == old(self).sgpd &&& final(self).sbgp == old(self).sbgp &&& final(self).sdtp == old(self).sdtp
                    &&& if i >= 0 {
                        r matches Some(x) && x.offset == s[i].offset && x.len == s[i].len
                            && final(self).unparsed_atoms@ == s.remove(i)
                    } else {
                        r is None && final(self).unparsed_atoms@ == s
                    }
                }),
            },
    {
        match &self.composition_offset {
            InternalElement::Searched(v) => {
                return *v;
            },
            InternalElement::NotSearched => {},
        }
        let r = match take_first_match(&mut self.unparsed_atoms, CTTS) {
            Some(a) => Some(Reference::<Ctts>::new(a.offset, a.len)),
            None => None,
        };
        self.composition_offset = InternalElement::Searched(r);
        r
    }

    /// Resolves the optional `cslg` role: on first access the first matching
    /// child, if any, is claimed out of the unresolved list; the outcome —
    /// present or absent — is cached, and later accesses return it untouched.
    pub fn cslg(&mut self) -> (r: Option<Reference<Cslg>>)
        ensures
            match old(self).cslg {
                InternalElement::Searched(v) => *final(self) == *old(self) && r == v,
                InternalElement::NotSearched => ({
                    let s = old(self).unparsed_atoms@;
                    let i = first_match(s, CSLG);
                    &&& final(self).cslg == InternalElement::Searched(r)
                    &&& final(self).sample_description == old(self).sample_description &&& final(self).time_to_sample == old(self).time_to_sample &&& final(self).composition_offset == old(self).composition_offset &&& final(self).sync_sample == old(self).sync_sample &&& final(self).stps == old(self).stps &&& final(self).sample_to_chunk == old(self).sample_to_chunk &&& final(self).sample_size == old(self).sample_size &&& final(self).chunk_offset == old(self).chunk_offset &&& final(self).shadow_sync == old(self).shadow_sync &&& final(self).sgpd == old(self).sgpd &&& final(self).sbgp == old(self).sbgp &&& final(self).sdtp == old(self).sdtp
                    &&& if i >= 0 {
                        r matches Some(x) && x.offset == s[i].offset && x.len == s[i].len
                            && final(self).unparsed_atoms@ == s.remove(i)
                    } else {
                        r is None && final(self).unparsed_atoms@ == s
                    }
                }),
            },
    {
        match &self.cslg {
            InternalElement::Searched(v) => {
                return *v;
            },
            InternalElement::NotSearched => {},
        }
        let r = match take_first_match(&mut self.unparsed_atoms, CSLG) {
            Some(a) => Some(Reference::<Cslg>::new(a.offset, a.len)),
            None => None,
        };
        self.cslg = InternalElement::Searched(r);
        r
    }

    /// Resolves the optional `sync_sample` role: on first access the first matching
    /// child, if any, is claimed out of the unresolved list; the outcome —
    /// present or absent — is cached, and later accesses return it untouched.
    pub fn sync_sample(&mut self) -> (r: Option<Reference<Stss>>)
        ensures
            match old(self).sync_sample {
                InternalElement::Searched(v) => *final(self) == *old(self) && r == v,
                InternalElement::NotSearched => ({
                    let s = old(self).unparsed_atoms@;
                    let i = first_match(s, STSS);
                    &&& final(self).sync_sample == InternalElement::Searched(r)
                    &&& final(self).sample_description == old(self).sample_description &&& final(self).time_to_sample == old(self).time_to_sample &&& final(self).composition_offset == old(self).composition_offset &&& final(self).cslg == old(self).cslg &&& final(self).stps == old(self).stps &&& final(self).sample_to_chunk == old(self).sample_to_chunk &&& final(self).sample_size == old(self).sample_size &&& final(self).chunk_offset == old(self).chunk_offset &&& final(self).shadow_sync == old(self).shadow_sync &&& final(self).sgpd == old(self).sgpd &&& final(self).sbgp == old(self).sbgp &&& final(self).sdtp == old(self).sdtp
                    &&& if i >= 0 {
                        r matches Some(x) && x.offset == s[i].offset && x.len == s[i].len
                            && final(self).unparsed_atoms@ == s.remove(i)
                    } else {
                        r is None && final(self).unparsed_atoms@ == s
                    }
                }),
            },
    {
        match &self.sync_sample {
            InternalElement::Searched(v) => {
                return *v;
            },
            InternalElement::NotSearched => {},
        }
        let r = match take_first_match(&mut self.unparsed_atoms, STSS) {
            Some(a) => Some(Reference::<Stss>::new(a.offset, a.len)),
            None => None,
        };
        self.sync_sample = InternalElement::Searched(r);
        r
    }

    /// Resolves the optional `stps` role: on first access the first matching
    /// child, if any, is claimed out of the unresolved list; the outcome —
    /// present or absent — is cached, and later accesses return it untouched.
    pub fn stps(&mut self) -> (r: Option<Reference<Stps>>)
        ensures
            match old(self).stps {
                InternalElement::Searched(v) => *final(self) == *old(self) && r == v,
                InternalElement::NotSearched => ({
                    let s = old(self).unparsed_atoms@;
                    let i = first_match(s, STPS);
                    &&& final(self).stps == InternalElement::Searched(r)
                    &&& final(self).sample_description == old(self).sample_description &&& final(self).time_to_sample == old(self).time_to_sample &&& final(self).composition_offset == old(self).composition_offset &&& final(self).cslg == old(self).cslg &&& final(self).sync_sample == old(self).sync_sample &&& final(self).sample_to_chunk == old(self).sample_to_chunk &&& final(self).sample_size == old(self).sample_size &&& final(self).chunk_offset == old(self).chunk_offset &&& final(self).shadow_sync == old(self).shadow_sync &&& final(self).sgpd == old(self).sgpd &&& final(self).sbgp == old(self).sbgp &&& final(self).sdtp == old(self).sdtp
                    &&& if i >= 0 {
                        r matches Some(x) && x.offset == s[i].offset && x.len == s[i].len
                            && final(self).unparsed_atoms@ == s.remove(i)
                    } else {
                        r is None && final(self).unparsed_atoms@ == s
                    }
                }),
            },
    {
        match &self.stps {
            InternalElement::Searched(v) => {
                return *v;
            },
            InternalElement::NotSearched => {},
        }
        let r = match take_first_match(&mut self.unparsed_atoms, STPS) {
            Some(a) => Some(Reference::<Stps>::new(a.offset, a.len)),
            None => None,
        };
        self.stps = InternalElement::Searched(r);
        r
    }

    /// Resolves the optional `sample_to_chunk` role: on first access the first matching
    /// child, if any, is claimed out of the unresolved list; the outcome —
    /// present or absent — is cached, and later accesses return it untouched.
    pub fn sample_to_chunk(&mut self) -> (r: Option<Reference<Stsc>>)
        ensures
            match old(self).sample_to_chunk {
                InternalElement::Searched(v) => *final(self) == *old(self) && r == v,
                InternalElement::NotSearched => ({
                    let s = old(self).unparsed_atoms@;
                    let i = first_match(s, STSC);
                    &&& final(self).sample_to_chunk == InternalElement::Searched(r)
                    &&& final(self).sample_description == old(self).sample_description &&& final(self).time_to_sample == old(self).time_to_sample &&& final(self).composition_offset == old(self).composition_offset &&& final(self).cslg == old(self).cslg &&& final(self).sync_sample == old(self).sync_sample &&& final(self).stps == old(self).stps &&& final(self).sample_size == old(self).sample_size &&& final(self).chunk_offset == old(self).chunk_offset &&& final(self).shadow_sync == old(self).shadow_sync &&& final(self).sgpd == old(self).sgpd &&& final(self).sbgp == old(self).sbgp &&& final(self).sdtp == old(self).sdtp
                    &&& if i >= 0 {
                        r matches Some(x) && x.offset == s[i].offset && x.len == s[i].len
                            && final(self).unparsed_atoms@ == s.remove(i)
                    } else {
                        r is None && final(self).unparsed_atoms@ == s
                    }
                }),
            },
    {
        match &self.sample_to_chunk {
            InternalElement::Searched(v) => {
                return *v;
            },
            InternalElement::NotSearched => {},
        }
        let r = match take_first_match(&mut self.unparsed_atoms, STSC) {
            Some(a) => Some(Reference::<Stsc>::new(a.offset, a.len)),
            None => None,
        };
        self.sample_to_chunk = InternalElement::Searched(r);
        r
    }

    /// Resolves the optional `sample_size` role: on first access the first matching
    /// child, if any, is claimed out of the unresolved list; the outcome —
    /// present or absent — is cached, and later accesses return it untouched.
    pub fn sample_size(&mut self) -> (r: Option<Reference<Stsz>>)
        ensures
            match old(self).sample_size {
                InternalElement::Searched(v) => *final(self) == *old(self) && r == v,
                InternalElement::NotSearched => ({
                    let s = old(self).unparsed_atoms@;
                    let i = first_match(s, STSZ);
                    &&& final(self).sample_size == InternalElement::Searched(r)
                    &&& final(self).sample_description == old(self).sample_description &&& final(self).time_to_sample == old(self).time_to_sample &&& final(self).composition_offset == old(self).composition_offset &&& final(self).cslg == old(self).cslg &&& final(self).sync_sample == old(self).sync_sample &&& final(self).stps == old(self).stps &&& final(self).sample_to_chunk == old(self).sample_to_chunk &&& final(self).chunk_offset == old(self).chunk_offset &&& final(self).shadow_sync == old(self).shadow_sync &&& final(self).sgpd == old(self).sgpd &&& final(self).sbgp == old(self).sbgp &&& final(self).sdtp == old(self).sdtp
                    &&& if i >= 0 {
                        r matches Some(x) && x.offset == s[i].offset && x.len == s[i].len
                            && final(self).unparsed_atoms@ == s.remove(i)
                    } else {
                        r is None && final(self).unparsed_atoms@ == s
                    }
                }),
            },
    {
        match &self.sample_size {
            InternalElement::Searched(v) => {
                return *v;
            },
            InternalElement::NotSearched => {},
        }
        let r = match take_first_match(&mut self.unparsed_atoms, STSZ) {
            Some(a) => Some(Reference::<Stsz>::new(a.offset, a.len)),
            None => None,
        };
        self.sample_size = InternalElement::Searched(r);
        r
    }

    /// Resolves the optional `chunk_offset` role: on first access the first matching
    /// child, if any, is claimed out of the unresolved list; the outcome —
    /// present or absent — is cached, and later accesses return it untouched.
    pub fn chunk_offset(&mut self) -> (r: Option<Reference<Stco>>)
        ensures
            match old(self).chunk_offset {
                InternalElement::Searched(v) => *final(self) == *old(self) && r == v,
                InternalElement::NotSearched => ({
                    let s = old(self).unparsed_atoms@;
                    let i = first_match(s, STCO);
                    &&& final(self).chunk_offset == InternalElement::Searched(r)
                    &&& final(self).sample_description == old(self).sample_description &&& final(self).time_to_sample == old(self).time_to_sample &&& final(self).composition_offset == old(self).composition_offset &&& final(self).cslg == old(self).cslg &&& final(self).sync_sample == old(self).sync_sample &&& final(self).stps == old(self).stps &&& final(self).sample_to_chunk == old(self).sample_to_chunk &&& final(self).sample_size == old(self).sample_size &&& final(self).shadow_sync == old(self).shadow_sync &&& final(self).sgpd == old(self).sgpd &&& final(self).sbgp == old(self).sbgp &&& final(self).sdtp == old(self).sdtp
                    &&& if i >= 0 {
                        r matches Some(x) && x.offset == s[i].offset && x.len == s[i].len
                            && final(self).unparsed_atoms@ == s.remove(i)
                    } else {
                        r is None && final(self).unparsed_atoms@ == s
                    }
                }),
            },
    {
        match &self.chunk_offset {
            InternalElement::Searched(v) => {
                return *v;
            },
            InternalElement::NotSearched => {},
        }
        let r = match take_first_match(&mut self.unparsed_atoms, STCO) {
            Some(a) => Some(Reference::<Stco>::new(a.offset, a.len)),
            None => None,
        };
        self.chunk_offset = InternalElement::Searched(r);
        r
    }

    /// Resolves the optional `shadow_sync` role: on first access the first matching
    /// child, if any, is claimed out of the unresolved list; the outcome —
    /// present or absent — is cached, and later accesses return it untouched.
    pub fn shadow_sync(&mut self) -> (r: Option<Reference<Stsh>>)
        ensures
            match old(self).shadow_sync {
                InternalElement::Searched(v) => *final(self) == *old(self) && r == v,
                InternalElement::NotSearched => ({
                    let s = old(self).unparsed_atoms@;
                    let i = first_match(s, STSH);
                    &&& final(self).shadow_sync == InternalElement::Searched(r)
                    &&& final(self).sample_description == old(self).sample_description &&& final(self).time_to_sample == old(self).time_to_sample &&& final(self).composition_offset == old(self).composition_offset &&& final(self).cslg == old(self).cslg &&& final(self).sync_sample == old(self).sync_sample &&& final(self).stps == old(self).stps &&& final(self).sample_to_chunk == old(self).sample_to_chunk &&& final(self).sample_size == old(self).sample_size &&& final(self).chunk_offset == old(self).chunk_offset &&& final(self).sgpd == old(self).sgpd &&& final(self).sbgp == old(self).sbgp &&& final(self).sdtp == old(self).sdtp
                    &&& if i >= 0 {
                        r matches Some(x) && x.offset == s[i].offset && x.len == s[i].len
                            && final(self).unparsed_atoms@ == s.remove(i)
                    } else {
                        r is None && final(self).unparsed_atoms@ == s
                    }
                }),
            },
    {
        match &self.shadow_sync {
            InternalElement::Searched(v) => {
                return *v;
            },
            InternalElement::NotSearched => {},
        }
        let r = match take_first_match(&mut self.unparsed_atoms, STSH) {
            Some(a) => Some(Reference::<Stsh>::new(a.offset, a.len)),
            None => None,
        };
        self.shadow_sync = InternalElement::Searched(r);
        r
    }

    /// Resolves the optional `sgpd` role: on first access the first matching
    /// child, if any, is claimed out of the unresolved list; the outcome —
    /// present or absent — is cached, and later accesses return it untouched.
    pub fn sgpd(&mut self) -> (r: Option<Reference<Sgpd>>)
        ensures
            match old(self).sgpd {
                InternalElement::Searched(v) => *final(self) == *old(self) && r == v,
                InternalElement::NotSearched => ({
                    let s = old(self).unparsed_atoms@;
                    let i = first_match(s, SGPD);
                    &&& final(self).sgpd == InternalElement::Searched(r)
                    &&& final(self).sample_description == old(self).sample_description &&& final(self).time_to_sample == old(self).time_to_sample &&& final(self).composition_offset == old(self).composition_offset &&& final(self).cslg == old(self).cslg &&& final(self).sync_sample == old(self).sync_sample &&& final(self).stps == old(self).stps &&& final(self).sample_to_chunk == old(self).sample_to_chunk &&& final(self).sample_size == old(self).sample_size &&& final(self).chunk_offset == old(self).chunk_offset &&& final(self).shadow_sync == old(self).shadow_sync &&& final(self).sbgp == old(self).sbgp &&& final(self).sdtp == old(self).sdtp
                    &&& if i >= 0 {
                        r matches Some(x) && x.offset == s[i].offset && x.len == s[i].len
                            && final(self).unparsed_atoms@ == s.remove(i)
                    } else {
                        r is None && final(self).unparsed_atoms@ == s
                    }
                }),
            },
    {
        match &self.sgpd {
            InternalElement::Searched(v) => {
                return *v;
            },
            InternalElement::NotSearched => {},
        }
        let r = match take_first_match(&mut self.unparsed_atoms, SGPD) {
            Some(a) => Some(Reference::<Sgpd>::new(a.offset, a.len)),
            None => None,
        };
        self.sgpd = InternalElement::Searched(r);
        r
    }

    /// Resolves the optional `sbgp` role: on first access the first matching
    /// child, if any, is claimed out of the unresolved list; the outcome —
    /// present or absent — is cached, and later accesses return it untouched.
    pub fn sbgp(&mut self) -> (r: Option<Reference<Sbgp>>)
        ensures
            match old(self).sbgp {
                InternalElement::Searched(v) => *final(self) == *old(self) && r == v,
                InternalElement::NotSearched => ({
                    let s = old(self).unparsed_atoms@;
                    let i = first_match(s, SBGP);
                    &&& final(self).sbgp == InternalElement::Searched(r)
                    &&& final(self).sample_description == old(self).sample_description &&& final(self).time_to_sample == old(self).time_to_sample &&& final(self).composition_offset == old(self).composition_offset &&& final(self).cslg == old(self).cslg &&& final(self).sync_sample == old(self).sync_sample &&& final(self).stps == old(self).stps &&& final(self).sample_to_chunk == old(self).sample_to_chunk &&& final(self).sample_size == old(self).sample_size &&& final(self).chunk_offset == old(self).chunk_offset &&& final(self).shadow_sync == old(self).shadow_sync &&& final(self).sgpd == old(self).sgpd &&& final(self).sdtp == old(self).sdtp
                    &&& if i >= 0 {
                        r matches Some(x) && x.offset == s[i].offset && x.len == s[i].len
                            && final(self).unparsed_atoms@ == s.remove(i)
                    } else {
                        r is None && final(self).unparsed_atoms@ == s
                    }
                }),
            },
    {
        match &self.sbgp {
            InternalElement::Searched(v) => {
                return *v;
            },
            InternalElement::NotSearched => {},
        }
        let r = match take_first_match(&mut self.unparsed_atoms, SBGP) {
            Some(a) => Some(Reference::<Sbgp>::new(a.offset, a.len)),
            None => None,
        };
        self.sbgp = InternalElement::Searched(r);
        r
    }

    /// Resolves the optional `sdtp` role: on first access the first matching
    /// child, if any, is claimed out of the unresolved list; the outcome —
    /// present or absent — is cached, and later accesses return it untouched.
    pub fn sdtp(&mut self) -> (r: Option<Reference<Sdtp>>)
        ensures
            match old(self).sdtp {
                InternalElement::Searched(v) => *final(self) == *old(self) && r == v,
                InternalElement::NotSearched => ({
                    let s = old(self).unparsed_atoms@;
                    let i = first_match(s, SDTP);
                    &&& final(self).sdtp == InternalElement::Searched(r)
                    &&& final(self).sample_description == old(self).sample_description &&& final(self).time_to_sample == old(self).time_to_sample &&& final(self).composition_offset == old(self).composition_offset &&& final(self).cslg == old(self).cslg &&& final(self).sync_sample == old(self).sync_sample &&& final(self).stps == old(self).stps &&& final(self).sample_to_chunk == old(self).sample_to_chunk &&& final(self).sample_size == old(self).sample_size &&& final(self).chunk_offset == old(self).chunk_offset &&& final(self).shadow_sync == old(self).shadow_sync &&& final(self).sgpd == old(self).sgpd &&& final(self).sbgp == old(self).sbgp
                    &&& if i >= 0 {
                        r matches Some(x) && x.offset == s[i].offset && x.len == s[i].len
                            && final(self).unparsed_atoms@ == s.remove(i)
                    } else {
                        r is None && final(self).unparsed_atoms@ == s
                    }
                }),
            },
    {
        match &self.sdtp {
            InternalElement::Searched(v) => {
                return *v;
            },
            InternalElement::NotSearched => {},
        }
        let r = match take_first_match(&mut self.unparsed_atoms, SDTP) {
            Some(a) => Some(Reference::<Sdtp>::new(a.offset, a.len)),
            None => None,
        };
        self.sdtp = InternalElement::Searched(r);
        r
    }

}

/// The `rmda` container atom: one reference movie descriptor.
/// Created fully populated with its unresolved children; each named role is
/// resolved on demand and memoized, claiming its child out of the unresolved
/// list.
#[derive(Debug, Clone, PartialEq, Eq)]
pub struct Rmda {
    pub unparsed_atoms: Vec<UnparsedAtom>,
    pub rdrf: InternalElement<Option<Reference<Rdrf>>>,
    pub rmdr: InternalElement<Option<Reference<Rmdr>>>,
    pub rmcs: InternalElement<Option<Reference<Rmcs>>>,
    pub rmvc: InternalElement<Option<Reference<Rmvc>>>,
    pub rmcd: InternalElement<Option<Reference<Rmcd>>>,
    pub rmqu: InternalElement<Option<Reference<Rmqu>>>,
}

/// The ghost content of a `Rmda`.
pub struct SpecRmda {
    pub unparsed_atoms: Seq<UnparsedAtom>,
    pub rdrf: InternalElement<Option<SpecReference>>,
    pub rmdr: InternalElement<Option<SpecReference>>,
    pub rmcs: InternalElement<Option<SpecReference>>,
    pub rmvc: InternalElement<Option<SpecReference>>,
    pub rmcd: InternalElement<Option<SpecReference>>,
    pub rmqu: InternalElement<Option<SpecReference>>,
}

impl DeepView for Rmda {
    type V = SpecRmda;

    open spec fn deep_view(&self) -> SpecRmda {
        SpecRmda {
            unparsed_atoms: self.unparsed_atoms.deep_view(),
            rdrf: self.rdrf.deep_view(),
            rmdr: self.rmdr.deep_view(),
            rmcs: self.rmcs.deep_view(),
            rmvc: self.rmvc.deep_view(),
            rmcd: self.rmcd.deep_view(),
            rmqu: self.rmqu.deep_view(),
        }
    }
}

impl Parse for Rmda {
    open spec fn spec_parse(b: Seq<u8>, pos: int) -> Result<(SpecRmda, int), ParseError> {
        match spec_container_body(b, pos) {
            Err(e) => Err(e),
            Ok(rs) => Ok((SpecRmda { unparsed_atoms: rs.0, rdrf: InternalElement::NotSearched, rmdr: InternalElement::NotSearched, rmcs: InternalElement::NotSearched, rmvc: InternalElement::NotSearched, rmcd: InternalElement::NotSearched, rmqu: InternalElement::NotSearched }, rs.1)),
        }
    }

    fn parse(mp4: &mut Mp4) -> (r: Result<Rmda, ParseError>) {
        let atoms = match parse_container_body(mp4) {
            Ok(v) => v,
            Err(e) => {
                return Err(e);
            },
        };
        Ok(
            Rmda {
                unparsed_atoms: atoms,
                rdrf: InternalElement::NotSearched,
                rmdr: InternalElement::NotSearched,
                rmcs: InternalElement::NotSearched,
                rmvc: InternalElement::NotSearched,
                rmcd: InternalElement::NotSearched,
                rmqu: InternalElement::NotSearched,
            },
        )
    }
}

impl Rmda {
    /// Resolves the optional `rdrf` role: on first access the first matching
    /// child, if any, is claimed out of the unresolved list; the outcome —
    /// present or absent — is cached, and later accesses return it untouched.
    pub fn rdrf(&mut self) -> (r: Option<Reference<Rdrf>>)
        ensures
            match old(self).rdrf {
                InternalElement::Searched(v) => *final(self) == *old(self) && r == v,
                InternalElement::NotSearched => ({
                    let s = old(self).unparsed_atoms@;
                    let i = first_match(s, RDRF);
                    &&& final(self).rdrf == InternalElement::Searched(r)
                    &&& final(self).rmdr == old(self).rmdr &&& final(self).rmcs == old(self).rmcs &&& final(self).rmvc == old(self).rmvc &&& final(self).rmcd == old(self).rmcd &&& final(self).rmqu == old(self).rmqu
                    &&& if i >= 0 {
                        r matches Some(x) && x.offset == s[i].offset && x.len == s[i].len
                            && final(self).unparsed_atoms@ == s.remove(i)
                    } else {
                        r is None && final(self).unparsed_atoms@ == s
                    }
                }),
            },
    {
        match &self.rdrf {
            InternalElement::Searched(v) => {
                return *v;
            },
            InternalElement::NotSearched => {},
        }
        let r = match take_first_match(&mut self.unparsed_atoms, RDRF) {
            Some(a) => Some(Reference::<Rdrf>::new(a.offset, a.len)),
            None => None,
        };
        self.rdrf = InternalElement::Searched(r);
        r
    }

    /// Resolves the optional `rmdr` role: on first access the first matching
    /// child, if any, is claimed out of the unresolved list; the outcome —
    /// present or absent — is cached, and later accesses return it untouched.
    pub fn rmdr(&mut self) -> (r: Option<Reference<Rmdr>>)
        ensures
            match old(self).rmdr {
                InternalElement::Searched(v) => *final(self) == *old(self) && r == v,
                InternalElement::NotSearched => ({
                    let s = old(self).unparsed_atoms@;
                    let i = first_match(s, RMDR);
                    &&& final(self).rmdr == InternalElement::Searched(r)
                    &&& final(self).rdrf == old(self).rdrf &&& final(self).rmcs == old(self).rmcs &&& final(self).rmvc == old(self).rmvc &&& final(self).rmcd == old(self).rmcd &&& final(self).rmqu == old(self).rmqu
                    &&& if i >= 0 {
                        r matches Some(x) && x.offset == s[i].offset && x.len == s[i].len
                            && final(self).unparsed_atoms@ == s.remove(i)
                    } else {
                        r is None && final(self).unparsed_atoms@ == s
                    }
                }),
            },
    {
        match &self.rmdr {
            InternalElement::Searched(v) => {
                return *v;
            },
            InternalElement::NotSearched => {},
        }
        let r = match take_first_match(&mut self.unparsed_atoms, RMDR) {
            Some(a) => Some(Reference::<Rmdr>::new(a.offset, a.len)),
            None => None,
        };
        self.rmdr = InternalElement::Searched(r);
        r
    }

    /// Resolves the optional `rmcs` role: on first access the first matching
    /// child, if any, is claimed out of the unresolved list; the outcome —
    /// present or absent — is cached, and later accesses return it untouched.
    pub fn rmcs(&mut self) -> (r: Option<Reference<Rmcs>>)
        ensures
            match old(self).rmcs {
                InternalElement::Searched(v) => *final(self) == *old(self) && r == v,
                InternalElement::NotSearched => ({
                    let s = old(self).unparsed_atoms@;
                    let i = first_match(s, RMCS);
                    &&& final(self).rmcs == InternalElement::Searched(r)
                    &&& final(self).rdrf == old(self).rdrf &&& final(self).rmdr == old(self).rmdr &&& final(self).rmvc == old(self).rmvc &&& final(self).rmcd == old(self).rmcd &&& final(self).rmqu == old(self).rmqu
                    &&& if i >= 0 {
                        r matches Some(x) && x.offset == s[i].offset && x.len == s[i].len
                            && final(self).unparsed_atoms@ == s.remove(i)
                    } else {
                        r is None && final(self).unparsed_atoms@ == s
                    }
                }),
            },
    {
        match &self.rmcs {
            InternalElement::Searched(v) => {
                return *v;
            },
            InternalElement::NotSearched => {},
        }
        let r = match take_first_match(&mut self.unparsed_atoms, RMCS) {
            Some(a) => Some(Reference::<Rmcs>::new(a.offset, a.len)),
            None => None,
        };
        self.rmcs = InternalElement::Searched(r);
        r
    }

    /// Resolves the optional `rmvc` role: on first access the first matching
    /// child, if any, is claimed out of the unresolved list; the outcome —
    /// present or absent — is cached, and later accesses return it untouched.
    pub fn rmvc(&mut self) -> (r: Option<Reference<Rmvc>>)
        ensures
            match old(self).rmvc {
                InternalElement::Searched(v) => *final(self) == *old(self) && r == v,
                InternalElement::NotSearched => ({
                    let s = old(self).unparsed_atoms@;
                    let i = first_match(s, RMVC);
                    &&& final(self).rmvc == InternalElement::Searched(r)
                    &&& final(self).rdrf == old(self).rdrf &&& final(self).rmdr == old(self).rmdr &&& final(self).rmcs == old(self).rmcs &&& final(self).rmcd == old(self).rmcd &&& final(self).rmqu == old(self).rmqu
                    &&& if i >= 0 {
                        r matches Some(x) && x.offset == s[i].offset && x.len == s[i].len
                            && final(self).unparsed_atoms@ == s.remove(i)
                    } else {
                        r is None && final(self).unparsed_atoms@ == s
                    }
                }),
            },
    {
        match &self.rmvc {
            InternalElement::Searched(v) => {
                return *v;
            },
            InternalElement::NotSearched => {},
        }
        let r = match take_first_match(&mut self.unparsed_atoms, RMVC) {
            Some(a) => Some(Reference::<Rmvc>::new(a.offset, a.len)),
            None => None,
        };
        self.rmvc = InternalElement::Searched(r);
        r
    }

    /// Resolves the optional `rmcd` role: on first access the first matching
    /// child, if any, is claimed out of the unresolved list; the outcome —
    /// present or absent — is cached, and later accesses return it untouched.
    pub fn rmcd(&mut self) -> (r: Option<Reference<Rmcd>>)
        ensures
            match old(self).rmcd {
                InternalElement::Searched(v) => *final(self) == *old(self) && r == v,
                InternalElement::NotSearched => ({
                    let s = old(self).unparsed_atoms@;
                    let i = first_match(s, RMCD);
                    &&& final(self).rmcd == InternalElement::Searched(r)
                    &&& final(self).rdrf == old(self).rdrf &&& final(self).rmdr == old(self).rmdr &&& final(self).rmcs == old(self).rmcs &&& final(self).rmvc == old(self).rmvc &&& final(self).rmqu == old(self).rmqu
                    &&& if i >= 0 {
                        r matches Some(x) && x.offset == s[i].offset && x.len == s[i].len
                            && final(self).unparsed_atoms@ == s.remove(i)
                    } else {
                        r is None && final(self).unparsed_atoms@ == s
                    }
                }),
            },
    {
        match &self.rmcd {
            InternalElement::Searched(v) => {
                return *v;
            },
            InternalElement::NotSearched => {},
        }
        let r = match take_first_match(&mut self.unparsed_atoms, RMCD) {
            Some(a) => Some(Reference::<Rmcd>::new(a.offset, a.len)),
            None => None,
        };
        self.rmcd = InternalElement::Searched(r);
        r
    }

    /// Resolves the optional `rmqu` role: on first access the first matching
    /// child, if any, is claimed out of the unresolved list; the outcome —
    /// present or absent — is cached, and later accesses return it untouched.
    pub fn rmqu(&mut self) -> (r: Option<Reference<Rmqu>>)
        ensures
            match old(self).rmqu {
                InternalElement::Searched(v) => *final(self) == *old(self) && r == v,
                InternalElement::NotSearched => ({
                    let s = old(self).unparsed_atoms@;
                    let i = first_match(s, RMQU);
                    &&& final(self).rmqu == InternalElement::Searched(r)
                    &&& final(self).rdrf == old(self).rdrf &&& final(self).rmdr == old(self).rmdr &&& final(self).rmcs == old(self).rmcs &&& final(self).rmvc == old(self).rmvc &&& final(self).rmcd == old(self).rmcd
                    &&& if i >= 0 {
                        r matches Some(x) && x.offset == s[i].offset && x.len == s[i].len
                            && final(self).unparsed_atoms@ == s.remove(i)
                    } else {
                        r is None && final(self).unparsed_atoms@ == s
                    }
                }),
            },
    {
        match &self.rmqu {
            InternalElement::Searched(v) => {
                return *v;
            },
            InternalElement::NotSearched => {},
        }
        let r = match take_first_match(&mut self.unparsed_atoms, RMQU) {
            Some(a) => Some(Reference::<Rmqu>::new(a.offset, a.len)),
            None => None,
        };
        self.rmqu = InternalElement::Searched(r);
        r
    }

}


/// The sum of the declared lengths of a sequence of unresolved children.
pub open spec fn sum_lens(s: Seq<UnparsedAtom>) -> int
    decreases s.len(),
{
    if s.len() == 0 {
        0
    } else {
        s[0].len + sum_lens(s.skip(1))
    }
}

/// Framing round-trip for a scanned child list: when tokenizing the byte
/// range from `pos` to `end` succeeds, the children tile it exactly — the
/// scan ends at `end`, the child frame lengths sum to `end - pos`, and each
/// child begins where the previous one ended.
pub proof fn lemma_children_tile(b: Seq<u8>, pos: int, end: int)
    requires
        0 <= pos <= end,
        b.len() <= usize::MAX,
    ensures
        match spec_parse_elems_until::<UnparsedAtom>(b, pos, end) {
            Ok(rs) => {
                &&& rs.1 == end
                &&& sum_lens(rs.0) == end - pos
                &&& forall|k: int|
                    0 <= k < rs.0.len() ==> (#[trigger] rs.0[k]).offset == pos + sum_lens(
                        rs.0.take(k),
                    )
            },
            Err(e) => true,
        },
    decreases end - pos,
{
    match spec_parse_elems_until::<UnparsedAtom>(b, pos, end) {
        Ok(rs) => {
            if pos == end {
            } else {
                match UnparsedAtom::spec_parse(b, pos) {
                    Ok(first) => {
                        lemma_children_tile(b, first.1, end);
                        let rest = spec_parse_elems_until::<UnparsedAtom>(
                            b,
                            first.1,
                            end,
                        ).unwrap().0;
                        assert(rs.0 == seq![first.0] + rest);
                        assert(rs.0.skip(1) =~= rest);
                        assert forall|k: int| 0 <= k < rs.0.len() implies (#[trigger] rs.0[k]).offset
                            == pos + sum_lens(rs.0.take(k)) by {
                            if k == 0 {
                                assert(rs.0.take(0) =~= Seq::<UnparsedAtom>::empty());
                            } else {
                                assert(rest[k - 1].offset == first.1 + sum_lens(rest.take(k - 1)));
                                assert(rs.0.take(k).skip(1) =~= rest.take(k - 1));
                                assert(rs.0.take(k)[0] == first.0);
                                assert(first.1 == pos + first.0.len);
                                assert(sum_lens(rs.0.take(k)) == first.0.len + sum_lens(
                                    rest.take(k - 1),
                                ));
                                assert(rs.0[k] == rest[k - 1]);
                            }
                        }
                    },
                    Err(e) => {},
                }
            }
        },
        Err(e) => {},
    }
}

/// Framing round-trip for containers: when a container atom parses, its
/// children tile its body exactly — the sum of the child frame lengths plus
/// the container's own 8 header bytes equals its declared length, the scan
/// ends at the declared end, and each child begins where the previous one
/// ended.
pub proof fn lemma_container_framing(b: Seq<u8>, pos: int)
    requires
        0 <= pos,
        b.len() <= usize::MAX,
    ensures
        match spec_container_body(b, pos) {
            Ok(rs) => {
                &&& rs.1 == pos + be_u32_at(b, pos)
                &&& sum_lens(rs.0) + 8 == be_u32_at(b, pos)
                &&& forall|k: int|
                    0 <= k < rs.0.len() ==> (#[trigger] rs.0[k]).offset == pos + 8 + sum_lens(
                        rs.0.take(k),
                    )
            },
            Err(e) => true,
        },
{
    match spec_container_frame(b, pos) {
        Ok(l) => {
            lemma_children_tile(b, pos + 8, pos + l);
        },
        Err(e) => {},
    }
}

} // verus!
