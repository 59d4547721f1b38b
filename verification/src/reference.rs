use vstd::prelude::*;

use core::marker::PhantomData;

use crate::error::ParseError;
use crate::{Mp4, Parse, PeekLen};

verus! {

/// The ghost content of a `Reference`: where the target lives and how long it
/// is, free of the phantom type.
pub struct SpecReference {
    pub offset: int,
    pub len: int,
}

/// A lazy, deferred-parse handle to an atom of kind `P`: a plain
/// (offset, length) pair carrying no borrowed state and no live cursor, so it
/// can be copied freely and resolved on demand against any cursor over the
/// same bytes.
#[derive(Debug, PartialEq, Eq)]
pub struct Reference<P: Parse> {
    pub offset: usize,
    pub len: usize,
    pub _marker: PhantomData<P>,
}

impl<P: Parse> Clone for Reference<P> {
    fn clone(&self) -> (r: Self)
        ensures
            r == *self,
    {
        Reference { offset: self.offset, len: self.len, _marker: PhantomData }
    }
}

impl<P: Parse> Copy for Reference<P> {

}

impl<P: Parse> DeepView for Reference<P> {
    type V = SpecReference;

    open spec fn deep_view(&self) -> SpecReference {
        SpecReference { offset: self.offset as int, len: self.len as int }
    }
}

impl<P: Parse + PeekLen> Parse for Reference<P> {
    /// Scanning a reference records the cursor's position and the target's
    /// encoded length, then advances past the full length without parsing it.
    open spec fn spec_parse(b: Seq<u8>, pos: int) -> Result<(SpecReference, int), ParseError> {
        match P::spec_peek_len(b, pos) {
            Err(e) => Err(e),
            Ok(l) => {
                if pos + l > b.len() {
                    Err(ParseError::Truncated)
                } else {
                    Ok((SpecReference { offset: pos, len: l as int }, pos + l))
                }
            },
        }
    }

    fn parse(mp4: &mut Mp4) -> (r: Result<Self, ParseError>) {
        let offset = mp4.position();
        let len = match P::peek_len(mp4) {
            Ok(v) => v,
            Err(e) => {
                return Err(e);
            },
        };
        match mp4.reader.skip(len) {
            Ok(v) => {},
            Err(e) => {
                return Err(e);
            },
        }
        Ok(Reference { offset, len, _marker: PhantomData })
    }
}

impl<P: Parse + PeekLen> PeekLen for Reference<P> {
    /// A reference to `P` occupies exactly the bytes `P` itself would: its
    /// encoded length is `P`'s.
    open spec fn spec_peek_len(b: Seq<u8>, pos: int) -> Result<usize, ParseError> {
        P::spec_peek_len(b, pos)
    }

    fn peek_len(mp4: &mut Mp4) -> (r: Result<usize, ParseError>) {
        P::peek_len(mp4)
    }
}

impl<P: Parse> Reference<P> {
    pub fn new(offset: usize, len: usize) -> (r: Self)
        ensures
            r.offset == offset,
            r.len == len,
    {
        Reference { offset, len, _marker: PhantomData }
    }

    /// Resolves the reference: seeks the cursor to the recorded offset and
    /// parses one `P` there. Resolution is a pure function of the underlying
    /// bytes and the recorded offset, so resolving the same reference twice
    /// over identical bytes yields identical results.
    pub fn parse(self, mp4: &mut Mp4) -> (r: Result<P, ParseError>)
        requires
            old(mp4).wf(),
        ensures
            final(mp4).wf(),
            final(mp4).bytes() == old(mp4).bytes(),
            if self.offset as int <= old(mp4).bytes().len() {
                match P::spec_parse(old(mp4).bytes(), self.offset as int) {
                    Ok(v_end) => r matches Ok(v) && v.deep_view() == v_end.0 && final(mp4).pos()
                        == v_end.1,
                    Err(e) => r matches Err(e2) && e2 == e,
                }
            } else {
                r matches Err(e) && e == ParseError::Truncated
            },
    {
        mp4.read_parseable::<P>(self.offset)
    }
}

/// Resolution is pure: what a reference resolves to is a function of the
/// underlying bytes and the recorded offset alone, never of cursor history or
/// traversal order. Two cursors over identical bytes therefore resolve the
/// same reference to structurally equal values.
pub proof fn lemma_reference_resolution_pure<P: Parse>(b1: Seq<u8>, b2: Seq<u8>, offset: int)
    requires
        b1 == b2,
    ensures
        P::spec_parse(b1, offset) == P::spec_parse(b2, offset),
{
}

} // verus!
