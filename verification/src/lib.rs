//! A verified parser for ISO-base-media-style container files (the
//! MP4/QuickTime atom format): a recursively nested sequence of
//! length-prefixed, four-byte-tagged records that describe a media file's
//! structure and locate its sample data.
//!
//! The pieces, leaves first: a byte cursor over a finite in-memory source
//! ([`reader::Reader`], wrapped by [`Mp4`]); the atom frame codec and the tag
//! registry ([`atom::header`]); lazy deferred-parse handles
//! ([`reference::Reference`]); leaf atoms read field by field until their
//! declared end; container atoms whose children are tokenized once and then
//! claimed role by role, memoized ([`atom::Moov`] and its kin); and the
//! sample-table index chain that turns a playback time into a byte range
//! ([`atom::sample_table`]).
//!
//! Every parse is pinned, through [`Parse::spec_parse`], to a function of the
//! underlying bytes and the start position alone, so parsing carries no
//! order dependency; the framing law — a parse consumes exactly the declared
//! length, and a container's children tile its body — is part of each
//! contract.

use vstd::prelude::*;

pub mod atom;
pub mod data_structures;
pub mod error;
pub mod reference;
pub mod reader;

use crate::atom::header::Header;
use crate::error::ParseError;
use crate::reader::be_u32_at;
use crate::reader::Reader;

verus! {

/// A 16-bit fixed-point wire field; the fractional interpretation is the
/// consumer's concern, not the parser's.
pub type Fixed16 = u16;

/// A 32-bit fixed-point wire field; the fractional interpretation is the
/// consumer's concern, not the parser's.
pub type Fixed32 = u32;

/// The declared length of the atom frame starting at `pos`: the big-endian
/// u32 before the type tag. Lengths 0 and 1 signal unsupported extended
/// forms and are rejected as such, never misread as sizes.
pub open spec fn spec_atom_len(b: Seq<u8>, pos: int) -> Result<int, ParseError> {
    if pos + 4 > b.len() {
        Err(ParseError::Truncated)
    } else {
        let l = be_u32_at(b, pos);
        if l == 0 || l == 1 {
            Err(ParseError::UnsupportedExtendedSize)
        } else {
            Ok(l)
        }
    }
}

/// The cursor over one file's bytes, owned exclusively by whichever call is
/// actively parsing.
pub struct Mp4 {
    pub reader: Reader,
}

/// A value parseable from the byte source at the cursor's position. The
/// associated `spec_parse` pins the whole outcome — value, end position or
/// error — as a function of the bytes and the start position alone, so
/// parsing carries no order dependency and no hidden state.
pub trait Parse: Sized + DeepView {
    /// What parsing at `pos` yields: the parsed value (as its deep view) and
    /// the cursor's end position, or the error.
    spec fn spec_parse(b: Seq<u8>, pos: int) -> Result<(Self::V, int), ParseError>;

    /// Parses one value at the cursor, leaving the cursor at the value's end.
    fn parse(mp4: &mut Mp4) -> (r: Result<Self, ParseError>)
        requires
            old(mp4).wf(),
        ensures
            final(mp4).wf(),
            final(mp4).bytes() == old(mp4).bytes(),
            match Self::spec_parse(old(mp4).bytes(), old(mp4).pos()) {
                Ok(v_end) => r matches Ok(v) && v.deep_view() == v_end.0 && final(mp4).pos() == v_end.1,
                Err(e) => r matches Err(e2) && e2 == e,
            },
    ;
}

/// A value whose encoded length can be determined at the cursor's position
/// without fully parsing it, so a `Reference` can be recorded and skipped
/// past.
pub trait PeekLen: Parse {
    /// The encoded length visible at `pos`, or the error met determining it.
    spec fn spec_peek_len(b: Seq<u8>, pos: int) -> Result<usize, ParseError>;

    /// Determines the encoded length without consuming anything: the cursor
    /// stands where it stood.
    fn peek_len(mp4: &mut Mp4) -> (r: Result<usize, ParseError>)
        requires
            old(mp4).wf(),
        ensures
            final(mp4).wf(),
            final(mp4).bytes() == old(mp4).bytes(),
            final(mp4).pos() == old(mp4).pos(),
            r == Self::spec_peek_len(old(mp4).bytes(), old(mp4).pos()),
    ;
}

impl Mp4 {
    /// The underlying byte source.
    pub open spec fn bytes(&self) -> Seq<u8> {
        self.reader.bytes()
    }

    /// The cursor's current absolute offset.
    pub open spec fn pos(&self) -> int {
        self.reader.pos()
    }

    /// The cursor never stands past the end of the source.
    pub open spec fn wf(&self) -> bool {
        self.reader.wf()
    }

    pub fn new(buffer: Vec<u8>) -> (r: Mp4)
        ensures
            r.wf(),
            r.bytes() == buffer@,
            r.pos() == 0,
    {
        Mp4 { reader: Reader::new(buffer) }
    }

    /// The cursor's current absolute offset.
    pub fn position(&self) -> (r: usize)
        ensures
            r == self.pos(),
    {
        self.reader.position()
    }

    /// Repositions the cursor to the absolute offset `offset`.
    pub fn jump_to(&mut self, offset: usize) -> (r: Result<(), ParseError>)
        requires
            old(self).wf(),
        ensures
            final(self).wf(),
            final(self).bytes() == old(self).bytes(),
            if offset <= old(self).bytes().len() {
                r matches Ok(v) && final(self).pos() == offset
            } else {
                r == Err::<(), ParseError>(ParseError::Truncated) && final(self).pos() == old(self).pos()
            },
    {
        self.reader.seek_absolute(offset)
    }

    /// Reads an atom frame's 4-byte length field, rejecting the reserved
    /// values 0 and 1 with `UnsupportedExtendedSize`. On an error the cursor
    /// stands where it stood.
    pub fn read_atom_len(&mut self) -> (r: Result<usize, ParseError>)
        requires
            old(self).wf(),
        ensures
            final(self).wf(),
            final(self).bytes() == old(self).bytes(),
            match spec_atom_len(old(self).bytes(), old(self).pos()) {
                Ok(l) => r matches Ok(v) && v as int == l && final(self).pos() == old(self).pos()
                    + 4,
                Err(e) => r matches Err(e2) && e2 == e && final(self).pos() == old(self).pos(),
            },
    {
        let len = match self.reader.read_u32() {
            Ok(v) => v,
            Err(e) => {
                return Err(e);
            },
        };
        if len == 0 || len == 1 {
            let back = self.reader.go_backwards(4);
            Err(ParseError::UnsupportedExtendedSize)
        } else {
            Ok(len as usize)
        }
    }

    /// Reads the next 4 bytes as a type tag and checks them against the tag
    /// expected for the caller's role; `HeaderMismatch` when they differ. On
    /// an error the cursor stands where it stood.
    pub fn expect_header(&mut self, header: Header) -> (r: Result<(), ParseError>)
        requires
            old(self).wf(),
        ensures
            final(self).wf(),
            final(self).bytes() == old(self).bytes(),
            if old(self).pos() + 4 > old(self).bytes().len() {
                r == Err::<(), ParseError>(ParseError::Truncated) && final(self).pos() == old(
                    self,
                ).pos()
            } else if be_u32_at(old(self).bytes(), old(self).pos()) != header.0 as int {
                r == Err::<(), ParseError>(ParseError::HeaderMismatch) && final(self).pos() == old(
                    self,
                ).pos()
            } else {
                r matches Ok(v) && final(self).pos() == old(self).pos() + 4
            },
    {
        let tag = match self.reader.read_u32() {
            Ok(v) => v,
            Err(e) => {
                return Err(e);
            },
        };
        if tag != header.0 {
            let back = self.reader.go_backwards(4);
            Err(ParseError::HeaderMismatch)
        } else {
            Ok(())
        }
    }

    /// Reads the frame-plus-header pair ahead of the cursor without consuming
    /// it: the cursor stands where it stood, whatever the outcome.
    pub fn peek_header(&mut self) -> (r: Result<Header, ParseError>)
        requires
            old(self).wf(),
        ensures
            final(self).wf(),
            final(self).bytes() == old(self).bytes(),
            final(self).pos() == old(self).pos(),
            r == spec_peek_header(old(self).bytes(), old(self).pos()),
    {
        let start = self.reader.position();
        let len = match self.read_atom_len() {
            Ok(v) => v,
            Err(e) => {
                return Err(e);
            },
        };
        let tag = match self.reader.read_u32() {
            Ok(v) => v,
            Err(e) => {
                let back = self.reader.go_backwards(4);
                return Err(e);
            },
        };
        let back = self.reader.seek_absolute(start);
        Ok(Header(tag))
    }

    /// Skips one whole atom by trusting its declared length: reads the length
    /// field and moves the cursor to the atom's end, returning the new
    /// position. On an error the cursor stands where it stood.
    pub fn skip_chunk(&mut self) -> (r: Result<usize, ParseError>)
        requires
            old(self).wf(),
        ensures
            final(self).wf(),
            final(self).bytes() == old(self).bytes(),
            match spec_skip_chunk(old(self).bytes(), old(self).pos()) {
                Ok(end) => r matches Ok(v) && v as int == end && final(self).pos() == end,
                Err(e) => r matches Err(e2) && e2 == e && final(self).pos() == old(self).pos(),
            },
    {
        let start = self.reader.position();
        let len = match self.read_atom_len() {
            Ok(v) => v,
            Err(e) => {
                return Err(e);
            },
        };
        if len < 4 {
            let back = self.reader.seek_absolute(start);
            return Err(ParseError::FramingViolation);
        }
        match self.reader.skip(len - 4) {
            Ok(v) => Ok(self.reader.position()),
            Err(e) => {
                let back = self.reader.seek_absolute(start);
                Err(e)
            },
        }
    }

    /// Seeks to `offset` and parses one `P` there.
    pub fn read_parseable<P: Parse>(&mut self, offset: usize) -> (r: Result<P, ParseError>)
        requires
            old(self).wf(),
        ensures
            final(self).wf(),
            final(self).bytes() == old(self).bytes(),
            if offset as int <= old(self).bytes().len() {
                match P::spec_parse(old(self).bytes(), offset as int) {
                    Ok(v_end) => r matches Ok(v) && v.deep_view() == v_end.0 && final(self).pos()
                        == v_end.1,
                    Err(e) => r matches Err(e2) && e2 == e,
                }
            } else {
                r matches Err(e) && e == ParseError::Truncated
            },
    {
        match self.jump_to(offset) {
            Ok(v) => {},
            Err(e) => {
                return Err(e);
            },
        }
        P::parse(self)
    }
}

/// What `peek_header` yields at `pos`: the frame's length field validated,
/// then the 4 tag bytes, with the cursor left untouched either way.
pub open spec fn spec_peek_header(b: Seq<u8>, pos: int) -> Result<Header, ParseError> {
    match spec_atom_len(b, pos) {
        Err(e) => Err(e),
        Ok(l) => {
            if pos + 8 > b.len() {
                Err(ParseError::Truncated)
            } else {
                Ok(Header(be_u32_at(b, pos + 4) as u32))
            }
        },
    }
}

/// What `skip_chunk` yields at `pos`: the position just past the atom whose
/// length field stands at `pos`.
pub open spec fn spec_skip_chunk(b: Seq<u8>, pos: int) -> Result<int, ParseError> {
    match spec_atom_len(b, pos) {
        Err(e) => Err(e),
        Ok(l) => {
            if l < 4 {
                Err(ParseError::FramingViolation)
            } else if pos + l > b.len() {
                Err(ParseError::Truncated)
            } else {
                Ok(pos + l)
            }
        },
    }
}

/// The frame discipline shared by every leaf atom: a validated length field,
/// the expected type tag, and a declared extent that lies within the source.
/// Yields the declared length; the cursor is then past the 8 header bytes.
pub open spec fn spec_leaf_frame(b: Seq<u8>, pos: int, tag: u32) -> Result<int, ParseError> {
    match spec_atom_len(b, pos) {
        Err(e) => Err(e),
        Ok(l) => {
            if pos + 8 > b.len() {
                Err(ParseError::Truncated)
            } else if be_u32_at(b, pos + 4) != tag as int {
                Err(ParseError::HeaderMismatch)
            } else if pos + l > b.len() {
                Err(ParseError::Truncated)
            } else {
                Ok(l)
            }
        },
    }
}

/// Consumes a leaf atom's frame: length field, expected tag, bounds. On an
/// error the cursor stands where it stood.
pub fn read_leaf_frame(mp4: &mut Mp4, tag: u32) -> (r: Result<usize, ParseError>)
    requires
        old(mp4).wf(),
    ensures
        final(mp4).wf(),
        final(mp4).bytes() == old(mp4).bytes(),
        match spec_leaf_frame(old(mp4).bytes(), old(mp4).pos(), tag) {
            Ok(l) => r matches Ok(v) && v as int == l && final(mp4).pos() == old(mp4).pos() + 8,
            Err(e) => r matches Err(e2) && e2 == e && final(mp4).pos() == old(mp4).pos(),
        },
{
    let start = mp4.position();
    let l = match mp4.read_atom_len() {
        Ok(v) => v,
        Err(e) => {
            return Err(e);
        },
    };
    match mp4.expect_header(Header(tag)) {
        Ok(v) => {},
        Err(e) => {
            let back = mp4.reader.go_backwards(4);
            return Err(e);
        },
    }
    let avail = mp4.reader.source_len() - start;
    if l > avail {
        let back = mp4.jump_to(start);
        return Err(ParseError::Truncated);
    }
    Ok(l)
}

/// What a fill-to-declared-end read yields at `pos`: every byte from the
/// cursor to `end`, or nothing when the cursor already stands at or past
/// `end`.
pub open spec fn spec_fill(b: Seq<u8>, pos: int, end: int) -> (Seq<u8>, int) {
    if pos >= end {
        (Seq::empty(), pos)
    } else {
        (b.subrange(pos, end), end)
    }
}

/// Consumes exactly the bytes from the cursor to the atom's declared end —
/// the dominant variable-length pattern for a leaf atom's trailing field.
pub fn read_fill(mp4: &mut Mp4, end: usize) -> (r: Vec<u8>)
    requires
        old(mp4).wf(),
        end as int <= old(mp4).bytes().len(),
    ensures
        final(mp4).wf(),
        final(mp4).bytes() == old(mp4).bytes(),
        r@ == spec_fill(old(mp4).bytes(), old(mp4).pos(), end as int).0,
        final(mp4).pos() == spec_fill(old(mp4).bytes(), old(mp4).pos(), end as int).1,
{
    let p = mp4.position();
    if p >= end {
        Vec::new()
    } else {
        match mp4.reader.read_bytes_dyn(end - p) {
            Ok(v) => v,
            Err(e) => Vec::new(),
        }
    }
}

/// What parsing `T` elements back to back from `pos` up to exactly `end`
/// yields. An element that would cross `end`, or one that consumes nothing,
/// is a partial element: `TruncatedSequence`.
pub open spec fn spec_parse_elems_until<T: Parse>(b: Seq<u8>, pos: int, end: int) -> Result<
    (Seq<T::V>, int),
    ParseError,
>
    decreases end - pos,
{
    if pos >= end {
        Ok((Seq::empty(), pos))
    } else {
        match T::spec_parse(b, pos) {
            Err(e) => Err(e),
            Ok((v, p2)) => {
                if p2 <= pos || p2 > end {
                    Err(ParseError::TruncatedSequence)
                } else {
                    match spec_parse_elems_until::<T>(b, p2, end) {
                        Err(e) => Err(e),
                        Ok((rest, p3)) => Ok((seq![v] + rest, p3)),
                    }
                }
            },
        }
    }
}

/// Parses `T` elements back to back while bytes remain before `end` (a leaf
/// atom's declared end).
pub fn parse_elems_until<T: Parse>(mp4: &mut Mp4, end: usize) -> (r: Result<Vec<T>, ParseError>)
    requires
        old(mp4).wf(),
        end as int <= old(mp4).bytes().len(),
    ensures
        final(mp4).wf(),
        final(mp4).bytes() == old(mp4).bytes(),
        match spec_parse_elems_until::<T>(old(mp4).bytes(), old(mp4).pos(), end as int) {
            Ok(rs) => r matches Ok(v) && v.deep_view() == rs.0 && final(mp4).pos() == rs.1,
            Err(e) => r matches Err(e2) && e2 == e,
        },
{
    let ghost b = old(mp4).bytes();
    let ghost p0 = old(mp4).pos();
    let mut out: Vec<T> = Vec::new();
    let mut cur = mp4.position();
    while cur < end
        invariant
            mp4.wf(),
            b == old(mp4).bytes(),
            p0 == old(mp4).pos(),
            mp4.bytes() == b,
            cur == mp4.pos(),
            end as int <= b.len(),
            match spec_parse_elems_until::<T>(b, cur as int, end as int) {
                Ok(rs) => spec_parse_elems_until::<T>(b, p0, end as int) matches Ok(rs0)
                    && rs0.0 == out.deep_view() + rs.0 && rs0.1 == rs.1,
                Err(e) => spec_parse_elems_until::<T>(b, p0, end as int) == Err::<
                    (Seq<T::V>, int),
                    ParseError,
                >(e),
            },
        decreases end - cur,
    {
        let elem = match T::parse(mp4) {
            Ok(v) => v,
            Err(e) => {
                return Err(e);
            },
        };
        let next = mp4.position();
        if next <= cur || next > end {
            return Err(ParseError::TruncatedSequence);
        }
        let ghost odv = out.deep_view();
        out.push(elem);
        proof {
            assert(out.deep_view() =~= odv + seq![elem.deep_view()]);
            match spec_parse_elems_until::<T>(b, next as int, end as int) {
                Ok(rs) => {
                    assert(odv + (seq![elem.deep_view()] + rs.0) =~= (odv + seq![
                        elem.deep_view(),
                    ]) + rs.0);
                },
                Err(e) => {},
            }
        }
        cur = next;
    }
    proof {
        assert(spec_parse_elems_until::<T>(b, cur as int, end as int) == Ok::<
            (Seq<T::V>, int),
            ParseError,
        >((Seq::empty(), cur as int)));
        match spec_parse_elems_until::<T>(b, p0, end as int) {
            Ok(rs0) => {
                assert(rs0.0 =~= out.deep_view());
            },
            Err(e) => {},
        }
    }
    Ok(out)
}

/// What parsing exactly `n` consecutive `T` elements from `pos` yields.
pub open spec fn spec_parse_elems_count<T: Parse>(b: Seq<u8>, pos: int, n: int) -> Result<
    (Seq<T::V>, int),
    ParseError,
>
    decreases n,
{
    if n <= 0 {
        Ok((Seq::empty(), pos))
    } else {
        match T::spec_parse(b, pos) {
            Err(e) => Err(e),
            Ok((v, p2)) => {
                match spec_parse_elems_count::<T>(b, p2, n - 1) {
                    Err(e) => Err(e),
                    Ok((rest, p3)) => Ok((seq![v] + rest, p3)),
                }
            },
        }
    }
}

/// Parses exactly `n` consecutive `T` elements (a count-prefixed list).
pub fn parse_elems_count<T: Parse>(mp4: &mut Mp4, n: usize) -> (r: Result<Vec<T>, ParseError>)
    requires
        old(mp4).wf(),
    ensures
        final(mp4).wf(),
        final(mp4).bytes() == old(mp4).bytes(),
        match spec_parse_elems_count::<T>(old(mp4).bytes(), old(mp4).pos(), n as int) {
            Ok(rs) => r matches Ok(v) && v.deep_view() == rs.0 && final(mp4).pos() == rs.1,
            Err(e) => r matches Err(e2) && e2 == e,
        },
{
    let ghost b = old(mp4).bytes();
    let ghost p0 = old(mp4).pos();
    let mut out: Vec<T> = Vec::new();
    let mut i: usize = 0;
    while i < n
        invariant
            mp4.wf(),
            b == old(mp4).bytes(),
            p0 == old(mp4).pos(),
            mp4.bytes() == b,
            i <= n,
            match spec_parse_elems_count::<T>(b, mp4.pos(), n - i) {
                Ok(rs) => spec_parse_elems_count::<T>(b, p0, n as int) matches Ok(rs0) && rs0.0
                    == out.deep_view() + rs.0 && rs0.1 == rs.1,
                Err(e) => spec_parse_elems_count::<T>(b, p0, n as int) == Err::<
                    (Seq<T::V>, int),
                    ParseError,
                >(e),
            },
        decreases n - i,
    {
        let ghost cur = mp4.pos();
        let elem = match T::parse(mp4) {
            Ok(v) => v,
            Err(e) => {
                return Err(e);
            },
        };
        let ghost odv = out.deep_view();
        out.push(elem);
        proof {
            assert(out.deep_view() =~= odv + seq![elem.deep_view()]);
            match spec_parse_elems_count::<T>(b, mp4.pos(), n - i - 1) {
                Ok(rs) => {
                    assert(odv + (seq![elem.deep_view()] + rs.0) =~= (odv + seq![
                        elem.deep_view(),
                    ]) + rs.0);
                },
                Err(e) => {},
            }
        }
        i = i + 1;
    }
    proof {
        match spec_parse_elems_count::<T>(b, p0, n as int) {
            Ok(rs0) => {
                assert(rs0.0 =~= out.deep_view());
            },
            Err(e) => {},
        }
    }
    Ok(out)
}

/// Fixed-width big-endian integers are themselves parseable values: they are
/// the elements of the plain-integer table tails (per-sample sizes, chunk
/// offsets, color table entries).
impl Parse for u16 {
    open spec fn spec_parse(b: Seq<u8>, pos: int) -> Result<(u16, int), ParseError> {
        if pos + 2 > b.len() {
            Err(ParseError::Truncated)
        } else {
            Ok((crate::reader::be_u16_at(b, pos) as u16, pos + 2))
        }
    }

    fn parse(mp4: &mut Mp4) -> (r: Result<u16, ParseError>) {
        mp4.reader.read_u16()
    }
}

impl Parse for u32 {
    open spec fn spec_parse(b: Seq<u8>, pos: int) -> Result<(u32, int), ParseError> {
        if pos + 4 > b.len() {
            Err(ParseError::Truncated)
        } else {
            Ok((be_u32_at(b, pos) as u32, pos + 4))
        }
    }

    fn parse(mp4: &mut Mp4) -> (r: Result<u32, ParseError>) {
        mp4.reader.read_u32()
    }
}

impl Parse for u64 {
    open spec fn spec_parse(b: Seq<u8>, pos: int) -> Result<(u64, int), ParseError> {
        if pos + 8 > b.len() {
            Err(ParseError::Truncated)
        } else {
            Ok((crate::reader::be_u64_at(b, pos) as u64, pos + 8))
        }
    }

    fn parse(mp4: &mut Mp4) -> (r: Result<u64, ParseError>) {
        mp4.reader.read_u64()
    }
}

/// The encoded length visible where an atom frame starts: the value of the
/// 4-byte length field, read and then stepped back over.
pub open spec fn spec_frame_peek_len(b: Seq<u8>, pos: int) -> Result<usize, ParseError> {
    match spec_atom_len(b, pos) {
        Err(e) => Err(e),
        Ok(l) => Ok(l as usize),
    }
}

/// Determines an atom's encoded length from its frame without consuming it.
pub fn frame_peek_len(mp4: &mut Mp4) -> (r: Result<usize, ParseError>)
    requires
        old(mp4).wf(),
    ensures
        final(mp4).wf(),
        final(mp4).bytes() == old(mp4).bytes(),
        final(mp4).pos() == old(mp4).pos(),
        r == spec_frame_peek_len(old(mp4).bytes(), old(mp4).pos()),
{
    let l = match mp4.read_atom_len() {
        Ok(v) => v,
        Err(e) => {
            return Err(e);
        },
    };
    let back = mp4.reader.go_backwards(4);
    Ok(l)
}

} // verus!
