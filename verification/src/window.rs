//! The lookahead window: the reader's local, partially consumed view of the
//! most recently delivered chunk.
//!
//! A window is an owned buffer plus a cursor/limit pair, instead of a
//! self-referential slice: `buf[pos..limit]` are the unread bytes. Draining
//! never shrinks the buffer, so once the window is empty the buffer goes back
//! to the producer with its full capacity for reuse.
use vstd::prelude::*;
use vstd::math::min;

verus! {

/// A delivered chunk together with how much of it the caller has consumed.
#[derive(Debug)]
pub struct Window {
    buf: Vec<u8>,
    pos: usize,
    limit: usize,
}

impl Window {
    /// Well-formed: the cursor never passes the limit, and the limit never
    /// passes the end of the buffer.
    pub closed spec fn wf(self) -> bool {
        self.pos <= self.limit <= self.buf.len()
    }

    /// The unread bytes.
    pub closed spec fn unread(self) -> Seq<u8> {
        self.buf@.subrange(self.pos as int, self.limit as int)
    }

    /// The whole owned buffer, consumed bytes and spare capacity included.
    pub closed spec fn full_buf(self) -> Seq<u8> {
        self.buf@
    }

    /// Installs a window over the first `len` bytes of a delivered chunk.
    ///
    /// The producer never sends a length beyond the buffer's capacity; should
    /// one arrive anyway, it is clamped so that the window stays well formed.
    pub fn new(buf: Vec<u8>, len: usize) -> (w: Window)
        ensures
            w.wf(),
            w.unread() == buf@.take(min(len as int, buf.len() as int)),
            w.full_buf() == buf@,
    {
        let limit: usize = if len <= buf.len() { len } else { buf.len() };
        let w = Window { buf, pos: 0, limit };
        proof {
            assert(w.unread() =~= w.buf@.take(limit as int));
        }
        w
    }

    /// How many unread bytes remain.
    pub fn available(&self) -> (n: usize)
        requires
            self.wf(),
        ensures
            n == self.unread().len(),
    {
        self.limit - self.pos
    }

    /// Copies out and consumes the next `min(want, available)` unread bytes.
    pub fn take_bytes(&mut self, want: usize) -> (r: Vec<u8>)
        requires
            old(self).wf(),
        ensures
            final(self).wf(),
            r@.len() == min(want as int, old(self).unread().len() as int),
            r@ == old(self).unread().take(r@.len() as int),
            final(self).unread() == old(self).unread().skip(r@.len() as int),
    {
        let avail = self.limit - self.pos;
        let count: usize = if want <= avail { want } else { avail };
        let mut r: Vec<u8> = Vec::new();
        let mut i: usize = 0;
        while i < count
            invariant
                self == old(self),
                old(self).wf(),
                count == min(want as int, old(self).unread().len() as int),
                i <= count,
                r@ =~= old(self).unread().take(i as int),
            decreases count - i,
        {
            r.push(self.buf[self.pos + i]);
            i += 1;
            proof {
                assert(r@ =~= old(self).unread().take(i as int));
            }
        }
        self.pos = self.pos + count;
        proof {
            assert(self.unread() =~= old(self).unread().skip(count as int));
        }
        r
    }

    /// Copies out the unread bytes without consuming them.
    pub fn peek_all(&self) -> (r: Vec<u8>)
        requires
            self.wf(),
        ensures
            r@ == self.unread(),
    {
        let mut r: Vec<u8> = Vec::new();
        let mut i: usize = self.pos;
        while i < self.limit
            invariant
                self.wf(),
                self.pos <= i <= self.limit,
                r@ =~= self.buf@.subrange(self.pos as int, i as int),
            decreases self.limit - i,
        {
            r.push(self.buf[i]);
            i += 1;
            proof {
                assert(r@ =~= self.buf@.subrange(self.pos as int, i as int));
            }
        }
        proof {
            assert(r@ =~= self.unread());
        }
        r
    }

    /// Consumes `amount` unread bytes, saturating at what is available, and
    /// never touching a channel.
    pub fn advance(&mut self, amount: usize)
        requires
            old(self).wf(),
        ensures
            final(self).wf(),
            final(self).unread() == old(self).unread().skip(
                min(amount as int, old(self).unread().len() as int),
            ),
    {
        let avail = self.limit - self.pos;
        let step: usize = if amount <= avail { amount } else { avail };
        self.pos = self.pos + step;
        proof {
            assert(self.unread() =~= old(self).unread().skip(step as int));
        }
    }

    /// Gives the buffer back, for recycling to the producer. The unread
    /// remainder, if any, is discarded with the cursor.
    pub fn into_buf(self) -> (r: Vec<u8>)
        ensures
            r@ == self.full_buf(),
    {
        self.buf
    }
}

} // verus!
