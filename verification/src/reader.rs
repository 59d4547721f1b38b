use vstd::prelude::*;

use crate::error::ParseError;

verus! {

/// The big-endian value of the 2 bytes of `b` starting at `i`.
pub open spec fn be_u16_at(b: Seq<u8>, i: int) -> int {
    b[i] * 0x100 + b[i + 1]
}

/// The big-endian value of the 4 bytes of `b` starting at `i`.
pub open spec fn be_u32_at(b: Seq<u8>, i: int) -> int {
    b[i] * 0x100_0000 + b[i + 1] * 0x1_0000 + b[i + 2] * 0x100 + b[i + 3]
}

/// The big-endian value of the 8 bytes of `b` starting at `i`.
pub open spec fn be_u64_at(b: Seq<u8>, i: int) -> int {
    b[i] * 0x100_0000_0000_0000 + b[i + 1] * 0x1_0000_0000_0000 + b[i + 2] * 0x100_0000_0000
        + b[i + 3] * 0x1_0000_0000 + b[i + 4] * 0x100_0000 + b[i + 5] * 0x1_0000 + b[i + 6] * 0x100
        + b[i + 7]
}

/// The big-endian two's-complement value of the 2 bytes of `b` starting at `i`.
pub open spec fn be_i16_at(b: Seq<u8>, i: int) -> int {
    if be_u16_at(b, i) >= 0x8000 {
        be_u16_at(b, i) - 0x1_0000
    } else {
        be_u16_at(b, i)
    }
}

/// The big-endian two's-complement value of the 4 bytes of `b` starting at `i`.
pub open spec fn be_i32_at(b: Seq<u8>, i: int) -> int {
    if be_u32_at(b, i) >= 0x8000_0000 {
        be_u32_at(b, i) - 0x1_0000_0000
    } else {
        be_u32_at(b, i)
    }
}

/// A seekable cursor over a finite byte source, exposing fixed-width
/// big-endian reads, run-length byte reads, repositioning, and
/// read-until-delimiter. No parsing logic lives here.
pub struct Reader {
    data: Vec<u8>,
    pos: usize,
}

impl Reader {
    /// The underlying byte source.
    pub closed spec fn bytes(&self) -> Seq<u8> {
        self.data@
    }

    /// The current absolute offset.
    pub closed spec fn pos(&self) -> int {
        self.pos as int
    }

    /// The cursor never stands past the end of the source.
    pub open spec fn wf(&self) -> bool {
        0 <= self.pos() <= self.bytes().len() <= usize::MAX
    }

    pub fn new(buffer: Vec<u8>) -> (r: Reader)
        ensures
            r.wf(),
            r.bytes() == buffer@,
            r.pos() == 0,
    {
        proof {
            vstd::std_specs::vec::axiom_spec_len(&buffer);
        }
        Reader { data: buffer, pos: 0 }
    }

    /// The current absolute offset.
    pub fn position(&self) -> (r: usize)
        ensures
            r == self.pos(),
    {
        self.pos
    }

    /// The total length of the byte source.
    pub fn source_len(&self) -> (r: usize)
        ensures
            r == self.bytes().len(),
    {
        self.data.len()
    }

    pub fn read_u8(&mut self) -> (r: Result<u8, ParseError>)
        requires
            old(self).wf(),
        ensures
            final(self).wf(),
            final(self).bytes() == old(self).bytes(),
            if old(self).pos() + 1 <= old(self).bytes().len() {
                r matches Ok(v) && v == old(self).bytes()[old(self).pos()] && final(self).pos() == old(
                    self,
                ).pos() + 1
            } else {
                r == Err::<u8, ParseError>(ParseError::Truncated) && final(self).pos() == old(self).pos()
            },
    {
        if self.data.len() - self.pos >= 1 {
            let v = self.data[self.pos];
            self.pos = self.pos + 1;
            Ok(v)
        } else {
            Err(ParseError::Truncated)
        }
    }

    pub fn read_u16(&mut self) -> (r: Result<u16, ParseError>)
        requires
            old(self).wf(),
        ensures
            final(self).wf(),
            final(self).bytes() == old(self).bytes(),
            if old(self).pos() + 2 <= old(self).bytes().len() {
                r matches Ok(v) && v as int == be_u16_at(old(self).bytes(), old(self).pos())
                    && final(self).pos() == old(self).pos() + 2
            } else {
                r == Err::<u16, ParseError>(ParseError::Truncated) && final(self).pos() == old(self).pos()
            },
    {
        if self.data.len() - self.pos >= 2 {
            let b0 = self.data[self.pos] as u16;
            let b1 = self.data[self.pos + 1] as u16;
            self.pos = self.pos + 2;
            Ok(b0 * 0x100 + b1)
        } else {
            Err(ParseError::Truncated)
        }
    }

    pub fn read_u32(&mut self) -> (r: Result<u32, ParseError>)
        requires
            old(self).wf(),
        ensures
            final(self).wf(),
            final(self).bytes() == old(self).bytes(),
            if old(self).pos() + 4 <= old(self).bytes().len() {
                r matches Ok(v) && v as int == be_u32_at(old(self).bytes(), old(self).pos())
                    && final(self).pos() == old(self).pos() + 4
            } else {
                r == Err::<u32, ParseError>(ParseError::Truncated) && final(self).pos() == old(self).pos()
            },
    {
        if self.data.len() - self.pos >= 4 {
            let b0 = self.data[self.pos] as u32;
            let b1 = self.data[self.pos + 1] as u32;
            let b2 = self.data[self.pos + 2] as u32;
            let b3 = self.data[self.pos + 3] as u32;
            self.pos = self.pos + 4;
            Ok(b0 * 0x100_0000 + b1 * 0x1_0000 + b2 * 0x100 + b3)
        } else {
            Err(ParseError::Truncated)
        }
    }

    pub fn read_i16(&mut self) -> (r: Result<i16, ParseError>)
        requires
            old(self).wf(),
        ensures
            final(self).wf(),
            final(self).bytes() == old(self).bytes(),
            if old(self).pos() + 2 <= old(self).bytes().len() {
                r matches Ok(v) && v as int == be_i16_at(old(self).bytes(), old(self).pos())
                    && final(self).pos() == old(self).pos() + 2
            } else {
                r == Err::<i16, ParseError>(ParseError::Truncated) && final(self).pos() == old(self).pos()
            },
    {
        let v = match self.read_u16() {
            Ok(v) => v,
            Err(e) => {
                return Err(e);
            },
        };
        if v >= 0x8000 {
            let m = 0xFFFFu16 - v;
            Ok(-(m as i16) - 1)
        } else {
            Ok(v as i16)
        }
    }

    pub fn read_i32(&mut self) -> (r: Result<i32, ParseError>)
        requires
            old(self).wf(),
        ensures
            final(self).wf(),
            final(self).bytes() == old(self).bytes(),
            if old(self).pos() + 4 <= old(self).bytes().len() {
                r matches Ok(v) && v as int == be_i32_at(old(self).bytes(), old(self).pos())
                    && final(self).pos() == old(self).pos() + 4
            } else {
                r == Err::<i32, ParseError>(ParseError::Truncated) && final(self).pos() == old(self).pos()
            },
    {
        let v = match self.read_u32() {
            Ok(v) => v,
            Err(e) => {
                return Err(e);
            },
        };
        if v >= 0x8000_0000 {
            let m = 0xFFFF_FFFFu32 - v;
            Ok(-(m as i32) - 1)
        } else {
            Ok(v as i32)
        }
    }

    pub fn read_u64(&mut self) -> (r: Result<u64, ParseError>)
        requires
            old(self).wf(),
        ensures
            final(self).wf(),
            final(self).bytes() == old(self).bytes(),
            if old(self).pos() + 8 <= old(self).bytes().len() {
                r matches Ok(v) && v as int == be_u64_at(old(self).bytes(), old(self).pos())
                    && final(self).pos() == old(self).pos() + 8
            } else {
                r == Err::<u64, ParseError>(ParseError::Truncated) && final(self).pos() == old(self).pos()
            },
    {
        if self.data.len() - self.pos >= 8 {
            let b0 = self.data[self.pos] as u64;
            let b1 = self.data[self.pos + 1] as u64;
            let b2 = self.data[self.pos + 2] as u64;
            let b3 = self.data[self.pos + 3] as u64;
            let b4 = self.data[self.pos + 4] as u64;
            let b5 = self.data[self.pos + 5] as u64;
            let b6 = self.data[self.pos + 6] as u64;
            let b7 = self.data[self.pos + 7] as u64;
            self.pos = self.pos + 8;
            Ok(
                b0 * 0x100_0000_0000_0000 + b1 * 0x1_0000_0000_0000 + b2 * 0x100_0000_0000 + b3
                    * 0x1_0000_0000 + b4 * 0x100_0000 + b5 * 0x1_0000 + b6 * 0x100 + b7,
            )
        } else {
            Err(ParseError::Truncated)
        }
    }

    /// Reads exactly `n` bytes into an owned buffer.
    pub fn read_bytes_dyn(&mut self, n: usize) -> (r: Result<Vec<u8>, ParseError>)
        requires
            old(self).wf(),
        ensures
            final(self).wf(),
            final(self).bytes() == old(self).bytes(),
            if old(self).pos() + n <= old(self).bytes().len() {
                r matches Ok(v) && v@ == old(self).bytes().subrange(
                    old(self).pos(),
                    old(self).pos() + n,
                ) && final(self).pos() == old(self).pos() + n
            } else {
                r == Err::<Vec<u8>, ParseError>(ParseError::Truncated) && final(self).pos() == old(
                    self,
                ).pos()
            },
    {
        if self.data.len() - self.pos >= n {
            let mut buf: Vec<u8> = Vec::new();
            let mut i: usize = 0;
            while i < n
                invariant
                    self.wf(),
                    i <= n,
                    self.pos() + n <= self.bytes().len(),
                    self.bytes().len() <= usize::MAX,
                    buf@ == self.bytes().subrange(self.pos(), self.pos() + i),
                decreases n - i,
            {
                buf.push(self.data[self.pos + i]);
                i = i + 1;
                proof {
                    assert(buf@ =~= self.bytes().subrange(self.pos(), self.pos() + i));
                }
            }
            self.pos = self.pos + n;
            Ok(buf)
        } else {
            Err(ParseError::Truncated)
        }
    }

    /// Reads exactly `n` bytes, like `read_bytes_dyn`, for call sites whose
    /// count is a constant of the format.
    pub fn read_bytes_const(&mut self, n: usize) -> (r: Result<Vec<u8>, ParseError>)
        requires
            old(self).wf(),
        ensures
            final(self).wf(),
            final(self).bytes() == old(self).bytes(),
            if old(self).pos() + n <= old(self).bytes().len() {
                r matches Ok(v) && v@ == old(self).bytes().subrange(
                    old(self).pos(),
                    old(self).pos() + n,
                ) && final(self).pos() == old(self).pos() + n
            } else {
                r == Err::<Vec<u8>, ParseError>(ParseError::Truncated) && final(self).pos() == old(
                    self,
                ).pos()
            },
    {
        self.read_bytes_dyn(n)
    }

    /// Moves the cursor forward by `n` bytes without reading them.
    pub fn skip(&mut self, n: usize) -> (r: Result<(), ParseError>)
        requires
            old(self).wf(),
        ensures
            final(self).wf(),
            final(self).bytes() == old(self).bytes(),
            if old(self).pos() + n <= old(self).bytes().len() {
                r matches Ok(v) && final(self).pos() == old(self).pos() + n
            } else {
                r == Err::<(), ParseError>(ParseError::Truncated) && final(self).pos() == old(self).pos()
            },
    {
        if self.data.len() - self.pos >= n {
            self.pos = self.pos + n;
            Ok(())
        } else {
            Err(ParseError::Truncated)
        }
    }

    /// Moves the cursor backward by `n` bytes.
    pub fn go_backwards(&mut self, n: usize) -> (r: Result<(), ParseError>)
        requires
            old(self).wf(),
        ensures
            final(self).wf(),
            final(self).bytes() == old(self).bytes(),
            if n <= old(self).pos() {
                r matches Ok(v) && final(self).pos() == old(self).pos() - n
            } else {
                r == Err::<(), ParseError>(ParseError::Truncated) && final(self).pos() == old(self).pos()
            },
    {
        if n <= self.pos {
            self.pos = self.pos - n;
            Ok(())
        } else {
            Err(ParseError::Truncated)
        }
    }

    /// Repositions the cursor to the absolute offset `offset`.
    pub fn seek_absolute(&mut self, offset: usize) -> (r: Result<(), ParseError>)
        requires
            old(self).wf(),
        ensures
            final(self).wf(),
            final(self).bytes() == old(self).bytes(),
            if offset <= old(self).bytes().len() {
                r matches Ok(v) && final(self).pos() == offset
            } else {
                r == Err::<(), ParseError>(ParseError::Truncated) && final(self).pos() == old(self).pos()
            },
    {
        if offset <= self.data.len() {
            self.pos = offset;
            Ok(())
        } else {
            Err(ParseError::Truncated)
        }
    }

    /// Reads bytes up to and including the first occurrence of `delim`; fails
    /// with `Truncated` when the source ends before a delimiter appears.
    pub fn read_until(&mut self, delim: u8) -> (r: Result<Vec<u8>, ParseError>)
        requires
            old(self).wf(),
        ensures
            final(self).wf(),
            final(self).bytes() == old(self).bytes(),
            match r {
                Ok(v) => {
                    &&& old(self).pos() < final(self).pos() <= final(self).bytes().len()
                    &&& v@ == final(self).bytes().subrange(old(self).pos(), final(self).pos())
                    &&& final(self).bytes()[final(self).pos() - 1] == delim
                    &&& forall|j: int|
                        old(self).pos() <= j < final(self).pos() - 1 ==> final(self).bytes()[j] != delim
                },
                Err(e) => {
                    &&& e == ParseError::Truncated
                    &&& final(self).pos() == old(self).pos()
                    &&& forall|j: int|
                        old(self).pos() <= j < final(self).bytes().len() ==> final(self).bytes()[j] != delim
                },
            },
    {
        let mut i: usize = self.pos;
        while i < self.data.len()
            invariant
                *self == *old(self),
                self.wf(),
                self.pos() <= i <= self.bytes().len(),
                forall|j: int| self.pos() <= j < i ==> self.bytes()[j] != delim,
            decreases self.bytes().len() - i,
        {
            if self.data[i] == delim {
                let start = self.pos;
                let out = self.read_bytes_dyn(i + 1 - start);
                return out;
            }
            i = i + 1;
        }
        Err(ParseError::Truncated)
    }
}

} // verus!
