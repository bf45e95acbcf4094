use vstd::prelude::*;
use vstd::bytes::{u16_from_le_bytes, u32_from_le_bytes, u64_from_le_bytes, spec_u16_from_le_bytes, spec_u32_from_le_bytes, spec_u64_from_le_bytes};
use vstd::slice::slice_subrange;
use crate::error::GgufError;

verus! {

/// A sequentially-readable byte source: the whole input held in memory with a
/// cursor. Every read either consumes exactly the bytes it declares or fails
/// with [`GgufError::UnexpectedEof`] and leaves the cursor where it was.
pub struct ByteReader {
    data: Vec<u8>,
    pos: usize,
}

impl ByteReader {
    /// The bytes this source was created over.
    pub closed spec fn bytes(&self) -> Seq<u8> {
        self.data@
    }

    /// The cursor: how many bytes have been consumed so far.
    pub closed spec fn pos(&self) -> int {
        self.pos as int
    }

    /// The cursor never runs past the end of the input.
    pub closed spec fn wf(&self) -> bool {
        self.pos <= self.data@.len()
    }

    /// The cursor counts consumed bytes, so it is never negative.
    pub broadcast proof fn lemma_pos_nonneg(&self)
        ensures
            0 <= #[trigger] self.pos(),
    {
    }

    /// A well-formed source's cursor lies within its bytes.
    pub broadcast proof fn lemma_wf_pos(&self)
        ensures
            #[trigger] self.wf() ==> self.pos() <= self.bytes().len(),
    {
    }

    /// Wraps a fully-read input in a source with the cursor at the start.
    pub fn new(data: Vec<u8>) -> (r: ByteReader)
        ensures
            r.bytes() == data@,
            r.pos() == 0,
            r.wf(),
    {
        ByteReader { data, pos: 0 }
    }

    /// Reads one byte.
    pub fn read_u8(&mut self) -> (r: Result<u8, GgufError>)
        requires
            old(self).wf(),
        ensures
            final(self).bytes() == old(self).bytes(),
            final(self).wf(),
            if old(self).pos() + 1 <= old(self).bytes().len() {
                &&& r == Ok::<u8, GgufError>(old(self).bytes()[old(self).pos()])
                &&& final(self).pos() == old(self).pos() + 1
            } else {
                &&& r == Err::<u8, GgufError>(GgufError::UnexpectedEof)
                &&& final(self).pos() == old(self).pos()
            },
    {
        if self.pos < self.data.len() {
            let b = self.data[self.pos];
            self.pos = self.pos + 1;
            Ok(b)
        } else {
            Err(GgufError::UnexpectedEof)
        }
    }

    /// Reads a little-endian unsigned 16-bit field.
    pub fn read_u16_le(&mut self) -> (r: Result<u16, GgufError>)
        requires
            old(self).wf(),
        ensures
            final(self).bytes() == old(self).bytes(),
            final(self).wf(),
            if old(self).pos() + 2 <= old(self).bytes().len() {
                &&& r == Ok::<u16, GgufError>(
                    spec_u16_from_le_bytes(
                        old(self).bytes().subrange(old(self).pos(), old(self).pos() + 2),
                    ),
                )
                &&& final(self).pos() == old(self).pos() + 2
            } else {
                &&& r == Err::<u16, GgufError>(GgufError::UnexpectedEof)
                &&& final(self).pos() == old(self).pos()
            },
    {
        if self.data.len() - self.pos >= 2 {
            let field = slice_subrange(self.data.as_slice(), self.pos, self.pos + 2);
            let x = u16_from_le_bytes(field);
            self.pos = self.pos + 2;
            Ok(x)
        } else {
            Err(GgufError::UnexpectedEof)
        }
    }

    /// Reads a little-endian unsigned 32-bit field.
    pub fn read_u32_le(&mut self) -> (r: Result<u32, GgufError>)
        requires
            old(self).wf(),
        ensures
            final(self).bytes() == old(self).bytes(),
            final(self).wf(),
            if old(self).pos() + 4 <= old(self).bytes().len() {
                &&& r == Ok::<u32, GgufError>(
                    spec_u32_from_le_bytes(
                        old(self).bytes().subrange(old(self).pos(), old(self).pos() + 4),
                    ),
                )
                &&& final(self).pos() == old(self).pos() + 4
            } else {
                &&& r == Err::<u32, GgufError>(GgufError::UnexpectedEof)
                &&& final(self).pos() == old(self).pos()
            },
    {
        if self.data.len() - self.pos >= 4 {
            let field = slice_subrange(self.data.as_slice(), self.pos, self.pos + 4);
            let x = u32_from_le_bytes(field);
            self.pos = self.pos + 4;
            Ok(x)
        } else {
            Err(GgufError::UnexpectedEof)
        }
    }

    /// Reads a little-endian unsigned 64-bit field.
    pub fn read_u64_le(&mut self) -> (r: Result<u64, GgufError>)
        requires
            old(self).wf(),
        ensures
            final(self).bytes() == old(self).bytes(),
            final(self).wf(),
            if old(self).pos() + 8 <= old(self).bytes().len() {
                &&& r == Ok::<u64, GgufError>(
                    spec_u64_from_le_bytes(
                        old(self).bytes().subrange(old(self).pos(), old(self).pos() + 8),
                    ),
                )
                &&& final(self).pos() == old(self).pos() + 8
            } else {
                &&& r == Err::<u64, GgufError>(GgufError::UnexpectedEof)
                &&& final(self).pos() == old(self).pos()
            },
    {
        if self.data.len() - self.pos >= 8 {
            let field = slice_subrange(self.data.as_slice(), self.pos, self.pos + 8);
            let x = u64_from_le_bytes(field);
            self.pos = self.pos + 8;
            Ok(x)
        } else {
            Err(GgufError::UnexpectedEof)
        }
    }

    /// Reads exactly `count` bytes into a fresh vector.
    pub fn read_bytes(&mut self, count: u64) -> (r: Result<Vec<u8>, GgufError>)
        requires
            old(self).wf(),
        ensures
            final(self).bytes() == old(self).bytes(),
            final(self).wf(),
            if old(self).pos() + count <= old(self).bytes().len() {
                &&& r is Ok
                &&& r->Ok_0@.len() == count
                &&& r->Ok_0@ == old(self).bytes().subrange(
                    old(self).pos(),
                    old(self).pos() + count,
                )
                &&& final(self).pos() == old(self).pos() + count
            } else {
                &&& r is Err
                &&& r->Err_0 == GgufError::UnexpectedEof
                &&& final(self).pos() == old(self).pos()
            },
    {
        let avail: usize = self.data.len() - self.pos;
        if count > avail as u64 {
            return Err(GgufError::UnexpectedEof);
        }
        let n = count as usize;
        let total = self.data.len();
        let mut out: Vec<u8> = Vec::with_capacity(n);
        let mut i: usize = 0;
        while i < n
            invariant
                i <= n,
                n == count,
                total == self.data@.len(),
                self.pos + n <= total,
                self.data@ == old(self).data@,
                self.pos == old(self).pos,
                out@ == self.data@.subrange(self.pos as int, self.pos + i),
            decreases n - i,
        {
            let b = self.data[self.pos + i];
            out.push(b);
            proof {
                assert(out@ =~= self.data@.subrange(self.pos as int, self.pos + i + 1));
            }
            i = i + 1;
        }
        self.pos = self.pos + n;
        Ok(out)
    }
}

} // verus!
