use vstd::prelude::*;

use crate::error::ParseError;
use crate::reader::be_u32_at;
use crate::{Mp4, Parse};

verus! {

/// A 3-by-3 transformation matrix of nine 32-bit fixed-point wire fields,
/// 36 bytes on the wire.
#[derive(Debug, Clone, Copy, PartialEq, Eq)]
pub struct Matrix {
    pub a: u32,
    pub b: u32,
    pub u: u32,
    pub c: u32,
    pub d: u32,
    pub v: u32,
    pub x: u32,
    pub y: u32,
    pub w: u32,
}

/// The matrix encoded in the 36 bytes of `b` starting at `pos`.
pub open spec fn spec_matrix_at(b: Seq<u8>, pos: int) -> Matrix {
    Matrix {
        a: be_u32_at(b, pos) as u32,
        b: be_u32_at(b, pos + 4) as u32,
        u: be_u32_at(b, pos + 8) as u32,
        c: be_u32_at(b, pos + 12) as u32,
        d: be_u32_at(b, pos + 16) as u32,
        v: be_u32_at(b, pos + 20) as u32,
        x: be_u32_at(b, pos + 24) as u32,
        y: be_u32_at(b, pos + 28) as u32,
        w: be_u32_at(b, pos + 32) as u32,
    }
}

impl DeepView for Matrix {
    type V = Matrix;

    open spec fn deep_view(&self) -> Matrix {
        *self
    }
}

impl Mp4 {
    /// Reads a 36-byte matrix field: nine big-endian 32-bit values.
    pub fn read_matrix(&mut self) -> (r: Result<Matrix, ParseError>)
        requires
            old(self).wf(),
        ensures
            final(self).wf(),
            final(self).bytes() == old(self).bytes(),
            if old(self).pos() + 36 <= old(self).bytes().len() {
                r matches Ok(m) && m == spec_matrix_at(old(self).bytes(), old(self).pos())
                    && final(self).pos() == old(self).pos() + 36
            } else {
                r == Err::<Matrix, ParseError>(ParseError::Truncated)
                    && final(self).pos() == old(self).pos()
            },
    {
        let start = self.reader.position();
        let a = match self.reader.read_u32() {
            Ok(v) => v,
            Err(e) => {
                return Err(e);
            },
        };
        let b = match self.reader.read_u32() {
            Ok(v) => v,
            Err(e) => {
                let back = self.reader.seek_absolute(start);
                return Err(e);
            },
        };
        let u = match self.reader.read_u32() {
            Ok(v) => v,
            Err(e) => {
                let back = self.reader.seek_absolute(start);
                return Err(e);
            },
        };
        let c = match self.reader.read_u32() {
            Ok(v) => v,
            Err(e) => {
                let back = self.reader.seek_absolute(start);
                return Err(e);
            },
        };
        let d = match self.reader.read_u32() {
            Ok(v) => v,
            Err(e) => {
                let back = self.reader.seek_absolute(start);
                return Err(e);
            },
        };
        let v = match self.reader.read_u32() {
            Ok(v) => v,
            Err(e) => {
                let back = self.reader.seek_absolute(start);
                return Err(e);
            },
        };
        let x = match self.reader.read_u32() {
            Ok(v) => v,
            Err(e) => {
                let back = self.reader.seek_absolute(start);
                return Err(e);
            },
        };
        let y = match self.reader.read_u32() {
            Ok(v) => v,
            Err(e) => {
                let back = self.reader.seek_absolute(start);
                return Err(e);
            },
        };
        let w = match self.reader.read_u32() {
            Ok(v) => v,
            Err(e) => {
                let back = self.reader.seek_absolute(start);
                return Err(e);
            },
        };
        Ok(Matrix { a, b, u, c, d, v, x, y, w })
    }
}

impl Parse for Matrix {
    open spec fn spec_parse(b: Seq<u8>, pos: int) -> Result<(Matrix, int), ParseError> {
        if pos + 36 > b.len() {
            Err(ParseError::Truncated)
        } else {
            Ok((spec_matrix_at(b, pos), pos + 36))
        }
    }

    fn parse(mp4: &mut Mp4) -> (r: Result<Matrix, ParseError>) {
        mp4.read_matrix()
    }
}

} // verus!
