use vstd::prelude::*;

use crate::data_structures::utf8::{is_valid_utf8, is_valid_utf8_from};
use crate::error::ParseError;
use crate::{Mp4, Parse};

verus! {

/// A C-style string field: UTF-8 bytes terminated by a single 0x00 byte,
/// kept with its terminator.
#[derive(Debug, Clone, PartialEq, Eq)]
pub struct CString(pub Vec<u8>);

/// The index of the first 0x00 byte of `b` at or after `pos`, or -1 when the
/// source ends first.
pub open spec fn first_nul(b: Seq<u8>, pos: int) -> int
    decreases b.len() - pos,
{
    if pos < 0 || pos >= b.len() {
        -1
    } else if b[pos] == 0 {
        pos
    } else {
        first_nul(b, pos + 1)
    }
}

/// `first_nul` names the first terminator: the byte there is 0, no byte
/// between `pos` and it is 0, and -1 means no terminator remains.
pub proof fn lemma_first_nul(b: Seq<u8>, pos: int)
    requires
        0 <= pos <= b.len(),
    ensures
        ({
            let i = first_nul(b, pos);
            &&& i >= 0 ==> pos <= i < b.len() && b[i] == 0 && (forall|j: int|
                pos <= j < i ==> b[j] != 0)
            &&& i < 0 ==> forall|j: int| pos <= j < b.len() ==> b[j] != 0
        }),
    decreases b.len() - pos,
{
    if pos < b.len() && b[pos] != 0 {
        lemma_first_nul(b, pos + 1);
    }
}

impl DeepView for CString {
    type V = Seq<u8>;

    open spec fn deep_view(&self) -> Seq<u8> {
        self.0@
    }
}

impl Parse for CString {
    /// A C string runs from the cursor up to and including the first 0x00
    /// byte; a source that ends first is truncated, and bytes that are not
    /// well-formed UTF-8 are an encoding error.
    open spec fn spec_parse(b: Seq<u8>, pos: int) -> Result<(Seq<u8>, int), ParseError> {
        let i = first_nul(b, pos);
        if i < 0 {
            Err(ParseError::Truncated)
        } else {
            let content = b.subrange(pos, i + 1);
            if !is_valid_utf8_from(content, 0) {
                Err(ParseError::InvalidEncoding)
            } else {
                Ok((content, i + 1))
            }
        }
    }

    fn parse(mp4: &mut Mp4) -> (r: Result<CString, ParseError>) {
        proof {
            lemma_first_nul(old(mp4).bytes(), old(mp4).pos());
        }
        let bytes = match mp4.reader.read_until(0) {
            Ok(v) => v,
            Err(e) => {
                return Err(e);
            },
        };
        proof {
            let b = mp4.bytes();
            let p0 = old(mp4).pos();
            let i = first_nul(b, p0);
            assert(b[mp4.pos() - 1] == 0);
            assert(i == mp4.pos() - 1);
        }
        if !is_valid_utf8(&bytes) {
            return Err(ParseError::InvalidEncoding);
        }
        Ok(CString(bytes))
    }
}

} // verus!
