//! A cursor over the bytes of a mangled name.

use vstd::prelude::*;
use vstd::slice::slice_subrange;
use crate::error::Error;

verus! {

/// A position in an immutable byte buffer.
///
/// The buffer is never copied: every operation that moves forward returns a
/// new cursor over the same buffer, so a caller backtracks by keeping the
/// cursor it had.
#[derive(Clone, Copy, Debug)]
pub struct IndexStr<'a> {
    buf: &'a [u8],
    idx: usize,
}

impl<'a> IndexStr<'a> {
    #[verifier::type_invariant]
    spec fn in_bounds(self) -> bool {
        self.idx <= self.buf@.len()
    }

    /// The whole buffer that the cursor walks over.
    pub closed spec fn buffer(self) -> Seq<u8> {
        self.buf@
    }

    /// How many bytes of the buffer lie before the cursor.
    pub closed spec fn index(self) -> int {
        self.idx as int
    }

    /// The bytes from the cursor to the end of the buffer.
    pub open spec fn remaining(self) -> Seq<u8> {
        self.buffer().skip(self.index())
    }

    /// A cursor at the start of `buf`.
    pub fn new(buf: &'a [u8]) -> (s: IndexStr<'a>)
        ensures
            s.buffer() == buf@,
            s.index() == 0,
    {
        IndexStr { buf, idx: 0 }
    }

    /// The cursor's offset from the start of the buffer.
    pub fn position(&self) -> (p: usize)
        ensures
            p == self.index(),
            0 <= self.index() <= self.buffer().len() <= usize::MAX,
    {
        proof {
            use_type_invariant(self);
        }
        assert(self.buf.len() == self.buf@.len());
        self.idx
    }

    /// The number of bytes left.
    pub fn len(&self) -> (n: usize)
        ensures
            n == self.buffer().len() - self.index(),
            n == self.remaining().len(),
    {
        proof {
            use_type_invariant(self);
        }
        self.buf.len() - self.idx
    }

    /// Whether no byte is left.
    pub fn is_empty(&self) -> (b: bool)
        ensures
            b <==> self.index() == self.buffer().len(),
            0 <= self.index() <= self.buffer().len(),
    {
        proof {
            use_type_invariant(self);
        }
        self.idx == self.buf.len()
    }

    /// The byte at the cursor, if there is one.
    pub fn peek(&self) -> (b: Option<u8>)
        ensures
            b == peek_at(self.buffer(), self.index()),
            0 <= self.index() <= self.buffer().len() <= usize::MAX,
    {
        proof {
            use_type_invariant(self);
        }
        assert(self.buf.len() == self.buf@.len());
        if self.idx < self.buf.len() {
            Some(self.buf[self.idx])
        } else {
            None
        }
    }

    /// The byte one past the cursor, if there is one.
    pub fn peek_second(&self) -> (b: Option<u8>)
        ensures
            b == peek_at(self.buffer(), self.index() + 1),
    {
        proof {
            use_type_invariant(self);
        }
        if self.buf.len() - self.idx > 1 {
            Some(self.buf[self.idx + 1])
        } else {
            None
        }
    }

    /// The byte two past the cursor, if there is one.
    pub fn peek_third(&self) -> (b: Option<u8>)
        ensures
            b == peek_at(self.buffer(), self.index() + 2),
    {
        proof {
            use_type_invariant(self);
        }
        if self.buf.len() - self.idx > 2 {
            Some(self.buf[self.idx + 2])
        } else {
            None
        }
    }

    /// Splits off the next `n` bytes: the bytes themselves and the cursor
    /// behind them. Fails with `UnexpectedEnd` when fewer than `n` are left.
    pub fn take(&self, n: usize) -> (r: Result<(&'a [u8], IndexStr<'a>), Error>)
        ensures
            self.index() + n <= self.buffer().len() ==> (r matches Ok((head, rest))
                && head@ == self.buffer().subrange(self.index(), self.index() + n)
                && rest.buffer() == self.buffer()
                && rest.index() == self.index() + n),
            self.index() + n > self.buffer().len() ==> r == Err::<(&[u8], IndexStr), Error>(
                Error::UnexpectedEnd,
            ),
    {
        proof {
            use_type_invariant(self);
        }
        if n > self.buf.len() - self.idx {
            Err(Error::UnexpectedEnd)
        } else {
            let head = slice_subrange(self.buf, self.idx, self.idx + n);
            Ok((head, IndexStr { buf: self.buf, idx: self.idx + n }))
        }
    }

    /// The cursor `n` bytes further on. Fails with `UnexpectedEnd` when
    /// fewer than `n` are left.
    pub fn skip(&self, n: usize) -> (r: Result<IndexStr<'a>, Error>)
        ensures
            self.index() + n <= self.buffer().len() ==> (r matches Ok(rest) && rest.buffer()
                == self.buffer() && rest.index() == self.index() + n),
            self.index() + n > self.buffer().len() ==> r == Err::<IndexStr, Error>(
                Error::UnexpectedEnd,
            ),
    {
        proof {
            use_type_invariant(self);
        }
        if n > self.buf.len() - self.idx {
            Err(Error::UnexpectedEnd)
        } else {
            Ok(IndexStr { buf: self.buf, idx: self.idx + n })
        }
    }

    /// The cursor one byte further on; the caller has seen that byte.
    pub fn bump(&self) -> (rest: IndexStr<'a>)
        requires
            self.index() < self.buffer().len(),
        ensures
            rest.buffer() == self.buffer(),
            rest.index() == self.index() + 1,
    {
        assert(self.buf.len() == self.buf@.len());
        IndexStr { buf: self.buf, idx: self.idx + 1 }
    }

    /// The cursor two bytes further on; the caller has seen both bytes.
    pub fn bump2(&self) -> (rest: IndexStr<'a>)
        requires
            self.index() + 1 < self.buffer().len(),
        ensures
            rest.buffer() == self.buffer(),
            rest.index() == self.index() + 2,
    {
        assert(self.buf.len() == self.buf@.len());
        IndexStr { buf: self.buf, idx: self.idx + 2 }
    }

    /// The buffer itself.
    pub fn bytes(&self) -> (b: &'a [u8])
        ensures
            b@ == self.buffer(),
    {
        self.buf
    }

    /// The bytes that are left, as a slice of the buffer.
    pub fn tail(&self) -> (t: &'a [u8])
        ensures
            t@ == self.remaining(),
    {
        proof {
            use_type_invariant(self);
        }
        slice_subrange(self.buf, self.idx, self.buf.len())
    }
}

/// The byte of `input` at `pos`, if `pos` lies inside it.
pub open spec fn peek_at(input: Seq<u8>, pos: int) -> Option<u8> {
    if 0 <= pos < input.len() {
        Some(input[pos])
    } else {
        None
    }
}

} // verus!
