use vstd::prelude::*;

use crate::data_structures::utf8::{is_valid_utf8, is_valid_utf8_from};
use crate::error::ParseError;
use crate::reader::be_u32_at;
use crate::{Mp4, Parse};

verus! {

/// A Pascal-style string field: a 4-byte big-endian length prefix followed by
/// that many UTF-8 bytes, no trailing terminator. Only the content bytes are
/// kept.
#[derive(Debug, Clone, PartialEq, Eq)]
pub struct PascalString(pub Vec<u8>);

impl DeepView for PascalString {
    type V = Seq<u8>;

    open spec fn deep_view(&self) -> Seq<u8> {
        self.0@
    }
}

impl Parse for PascalString {
    open spec fn spec_parse(b: Seq<u8>, pos: int) -> Result<(Seq<u8>, int), ParseError> {
        if pos + 4 > b.len() {
            Err(ParseError::Truncated)
        } else {
            let l = be_u32_at(b, pos);
            if pos + 4 + l > b.len() {
                Err(ParseError::Truncated)
            } else {
                let content = b.subrange(pos + 4, pos + 4 + l);
                if !is_valid_utf8_from(content, 0) {
                    Err(ParseError::InvalidEncoding)
                } else {
                    Ok((content, pos + 4 + l))
                }
            }
        }
    }

    fn parse(mp4: &mut Mp4) -> (r: Result<PascalString, ParseError>) {
        let l = match mp4.reader.read_u32() {
            Ok(v) => v,
            Err(e) => {
                return Err(e);
            },
        };
        let bytes = match mp4.reader.read_bytes_dyn(l as usize) {
            Ok(v) => v,
            Err(e) => {
                return Err(e);
            },
        };
        if !is_valid_utf8(&bytes) {
            return Err(ParseError::InvalidEncoding);
        }
        Ok(PascalString(bytes))
    }
}

} // verus!
