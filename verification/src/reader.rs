//! Forward-only byte cursor over an in-memory byte slice, with fixed-width
//! little/big-endian integer reads, raw byte spans, absolute-position
//! tracking and forward seeking. It never moves backward.

use vstd::prelude::*;

verus! {

/// The little-endian 32-bit value of the four bytes of `d` starting at `i`.
pub open spec fn le_u32_at(d: Seq<u8>, i: int) -> u32 {
    (d[i] as u32) | ((d[i + 1] as u32) << 8) | ((d[i + 2] as u32) << 16) | ((d[i + 3] as u32)
        << 24)
}

/// The little-endian 64-bit value of the eight bytes of `d` starting at `i`.
pub open spec fn le_u64_at(d: Seq<u8>, i: int) -> u64 {
    (d[i] as u64) | ((d[i + 1] as u64) << 8) | ((d[i + 2] as u64) << 16) | ((d[i + 3] as u64)
        << 24) | ((d[i + 4] as u64) << 32) | ((d[i + 5] as u64) << 40) | ((d[i + 6] as u64) << 48)
        | ((d[i + 7] as u64) << 56)
}

/// The big-endian signed 16-bit value of the two bytes of `d` starting at `i`.
pub open spec fn be_i16_at(d: Seq<u8>, i: int) -> i16 {
    (((d[i] as u16) << 8) | (d[i + 1] as u16)) as i16
}

/// A failed read: the requested span reaches past the end of the input, or a
/// forward seek targets a position behind the cursor.
#[derive(Clone, Copy, Debug, PartialEq, Eq, Structural)]
pub struct ReadError;

/// Sequential cursor over a byte slice. All reads consume bytes in order;
/// `advance_to` seeks forward to an absolute offset.
pub struct Reader<'a> {
    data: &'a [u8],
    pos: usize,
}

impl<'a> Reader<'a> {
    /// The underlying bytes, from the very start of the input.
    pub closed spec fn bytes(self) -> Seq<u8> {
        self.data@
    }

    /// The absolute position: how many bytes have been consumed.
    pub closed spec fn pos(self) -> int {
        self.pos as int
    }

    pub open spec fn wf(self) -> bool {
        0 <= self.pos() <= self.bytes().len() && self.bytes().len() <= usize::MAX
    }

    pub fn new(data: &'a [u8]) -> (r: Reader<'a>)
        ensures
            r.wf(),
            r.bytes() == data@,
            r.pos() == 0,
    {
        // The call ties the view's length to the slice's usize length.
        let n = data.len();
        proof {
            assert(data@.len() == n);
        }
        Reader { data, pos: 0 }
    }

    pub fn position(&self) -> (r: usize)
        ensures
            r == self.pos(),
    {
        self.pos
    }

    /// Reads one byte.
    pub fn u8(&mut self) -> (r: Result<u8, ReadError>)
        requires
            old(self).wf(),
        ensures
            final(self).wf(),
            final(self).bytes() == old(self).bytes(),
            if old(self).pos() + 1 <= old(self).bytes().len() {
                r == Ok::<u8, ReadError>(old(self).bytes()[old(self).pos()]) && final(self).pos() == old(
                    self,
                ).pos() + 1
            } else {
                r is Err && final(self).pos() == old(self).pos()
            },
    {
        if self.data.len() - self.pos >= 1 {
            let b = self.data[self.pos];
            self.pos = self.pos + 1;
            Ok(b)
        } else {
            Err(ReadError)
        }
    }

    /// Reads a little-endian 32-bit word.
    pub fn le_u32(&mut self) -> (r: Result<u32, ReadError>)
        requires
            old(self).wf(),
        ensures
            final(self).wf(),
            final(self).bytes() == old(self).bytes(),
            if old(self).pos() + 4 <= old(self).bytes().len() {
                r == Ok::<u32, ReadError>(le_u32_at(old(self).bytes(), old(self).pos()))
                    && final(self).pos() == old(self).pos() + 4
            } else {
                r is Err && final(self).pos() == old(self).pos()
            },
    {
        if self.data.len() - self.pos >= 4 {
            let b0 = self.data[self.pos] as u32;
            let b1 = self.data[self.pos + 1] as u32;
            let b2 = self.data[self.pos + 2] as u32;
            let b3 = self.data[self.pos + 3] as u32;
            self.pos = self.pos + 4;
            Ok(b0 | (b1 << 8) | (b2 << 16) | (b3 << 24))
        } else {
            Err(ReadError)
        }
    }

    /// Reads a little-endian 64-bit word.
    pub fn le_u64(&mut self) -> (r: Result<u64, ReadError>)
        requires
            old(self).wf(),
        ensures
            final(self).wf(),
            final(self).bytes() == old(self).bytes(),
            if old(self).pos() + 8 <= old(self).bytes().len() {
                r == Ok::<u64, ReadError>(le_u64_at(old(self).bytes(), old(self).pos()))
                    && final(self).pos() == old(self).pos() + 8
            } else {
                r is Err && final(self).pos() == old(self).pos()
            },
    {
        if self.data.len() - self.pos >= 8 {
            let b0 = self.data[self.pos] as u64;
            let b1 = self.data[self.pos + 1] as u64;
            let b2 = self.data[self.pos + 2] as u64;
            let b3 = self.data[self.pos + 3] as u64;
            let b4 = self.data[self.pos + 4] as u64;
            let b5 = self.data[self.pos + 5] as u64;
            let b6 = self.data[self.pos + 6] as u64;
            let b7 = self.data[self.pos + 7] as u64;
            self.pos = self.pos + 8;
            Ok(
                b0 | (b1 << 8) | (b2 << 16) | (b3 << 24) | (b4 << 32) | (b5 << 40) | (b6 << 48) | (
                b7 << 56),
            )
        } else {
            Err(ReadError)
        }
    }

    /// Reads a big-endian signed 16-bit value.
    pub fn be_i16(&mut self) -> (r: Result<i16, ReadError>)
        requires
            old(self).wf(),
        ensures
            final(self).wf(),
            final(self).bytes() == old(self).bytes(),
            if old(self).pos() + 2 <= old(self).bytes().len() {
                r == Ok::<i16, ReadError>(be_i16_at(old(self).bytes(), old(self).pos()))
                    && final(self).pos() == old(self).pos() + 2
            } else {
                r is Err && final(self).pos() == old(self).pos()
            },
    {
        if self.data.len() - self.pos >= 2 {
            let hi = self.data[self.pos] as u16;
            let lo = self.data[self.pos + 1] as u16;
            self.pos = self.pos + 2;
            Ok(((hi << 8) | lo) as i16)
        } else {
            Err(ReadError)
        }
    }

    /// Reads and discards `n` bytes.
    pub fn skip(&mut self, n: usize) -> (r: Result<(), ReadError>)
        requires
            old(self).wf(),
        ensures
            final(self).wf(),
            final(self).bytes() == old(self).bytes(),
            if old(self).pos() + n <= old(self).bytes().len() {
                r is Ok && final(self).pos() == old(self).pos() + n
            } else {
                r is Err && final(self).pos() == old(self).pos()
            },
    {
        if n <= self.data.len() - self.pos {
            self.pos = self.pos + n;
            Ok(())
        } else {
            Err(ReadError)
        }
    }

    /// Reads exactly `n` bytes as an owned vector.
    pub fn take_len(&mut self, n: usize) -> (r: Result<Vec<u8>, ReadError>)
        requires
            old(self).wf(),
        ensures
            final(self).wf(),
            final(self).bytes() == old(self).bytes(),
            (match r {
                Ok(v) => old(self).pos() + n <= old(self).bytes().len() && v@ == old(
                    self,
                ).bytes().subrange(old(self).pos(), old(self).pos() + n) && final(self).pos() == old(
                    self,
                ).pos() + n,
                Err(_) => old(self).pos() + n > old(self).bytes().len() && final(self).pos() == old(
                    self,
                ).pos(),
            }),
    {
        if n <= self.data.len() - self.pos {
            let s = vstd::slice::slice_subrange(self.data, self.pos, self.pos + n);
            let v = vstd::slice::slice_to_vec(s);
            self.pos = self.pos + n;
            Ok(v)
        } else {
            Err(ReadError)
        }
    }

    /// Seeks forward to the absolute offset `target`, consuming the bytes in
    /// between. Fails if `target` is behind the cursor or past the end.
    pub fn advance_to(&mut self, target: usize) -> (r: Result<(), ReadError>)
        requires
            old(self).wf(),
        ensures
            final(self).wf(),
            final(self).bytes() == old(self).bytes(),
            if old(self).pos() <= target <= old(self).bytes().len() {
                r is Ok && final(self).pos() == target
            } else {
                r is Err && final(self).pos() == old(self).pos()
            },
    {
        if target >= self.pos && target <= self.data.len() {
            self.pos = target;
            Ok(())
        } else {
            Err(ReadError)
        }
    }
}

} // verus!
