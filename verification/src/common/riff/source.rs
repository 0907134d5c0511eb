//! The bytes of a container and the views through which they are read.

use super::format::Window;
use vstd::prelude::*;

verus! {

/// The input and the one cursor into it. Every byte that any view hands out
/// moves this cursor, which is how a list learns how much of its current
/// child has been read.
pub struct Source {
    bytes: Vec<u8>,
    consumed: usize,
}

impl Source {
    /// The whole input.
    pub closed spec fn bytes(&self) -> Seq<u8> {
        self.bytes@
    }

    /// How many bytes of the input have been consumed.
    pub closed spec fn consumed(&self) -> nat {
        self.consumed as nat
    }

    pub open spec fn wf(&self) -> bool {
        self.consumed() <= self.bytes().len()
    }

    /// A source over `bytes` with nothing consumed.
    pub(crate) fn new(bytes: Vec<u8>) -> (s: Source)
        ensures
            s.bytes() == bytes@,
            s.consumed() == 0,
            s.wf(),
    {
        Source { bytes, consumed: 0 }
    }
}

/// A view of a source that hands out bytes up to a fixed end and no further,
/// however much is asked for. Reading moves the cursor of the source itself.
pub struct Counter<'a> {
    source: &'a mut Source,
    end: usize,
}

impl<'a> View for Counter<'a> {
    type V = Window;

    open spec fn view(&self) -> Window {
        Window { bytes: self.lent().bytes(), at: self.lent().consumed(), end: self.limit() }
    }
}

impl<'a> Counter<'a> {
    /// The borrowed source. Its value when the borrow ends is what the lender
    /// sees again.
    pub closed spec fn lent(self) -> &'a mut Source {
        self.source
    }

    /// The first position that this view may not read.
    pub closed spec fn limit(self) -> nat {
        self.end as nat
    }

    /// Once a view is no longer used, the lender sees the source as the view
    /// left it.
    pub proof fn lemma_given_back(self)
        requires
            has_resolved(self),
        ensures
            *final(self.lent()) == *self.lent(),
    {
    }

    /// A view of all that is left of `source`.
    pub(crate) fn whole(source: &'a mut Source) -> (view: Counter<'a>)
        requires
            old(source).wf(),
        ensures
            view@ == (Window {
                bytes: old(source).bytes(),
                at: old(source).consumed(),
                end: old(source).bytes().len(),
            }),
            *final(source) == *final(view.lent()),
    {
        let end = source.bytes.len();
        Counter { source, end }
    }

    /// This view cut down to at most `limit` bytes from the cursor.
    pub(crate) fn narrow(self, limit: u64) -> (view: Counter<'a>)
        requires
            self@.wf(),
        ensures
            view@ == self@.narrowed(limit as nat),
            *final(view.lent()) == *final(self.lent()),
    {
        let left = self.end - self.source.consumed;
        let end = if limit <= left as u64 {
            self.source.consumed + limit as usize
        } else {
            self.end
        };
        Counter { source: self.source, end }
    }

    /// A view of at most `limit` bytes of this view. While it is in use this
    /// view cannot be; afterwards this view goes on where the other stopped.
    pub fn take(&mut self, limit: u64) -> (view: Counter<'_>)
        requires
            old(self)@.wf(),
        ensures
            view@ == old(self)@.narrowed(limit as nat),
            final(self).limit() == old(self).limit(),
            *final(self).lent() == *final(view.lent()),
            *final(final(self).lent()) == *final(old(self).lent()),
    {
        let left = self.end - self.source.consumed;
        let end = if limit <= left as u64 {
            self.source.consumed + limit as usize
        } else {
            self.end
        };
        Counter { source: &mut *self.source, end }
    }

    /// How many bytes of the input have been consumed.
    pub fn consumed(&self) -> (n: usize)
        ensures
            n == self@.at,
    {
        self.source.consumed
    }

    /// Copies bytes into `buf` until it is full or the view is exhausted, and
    /// returns how many were copied. The rest of `buf` is left as it was.
    pub fn read(&mut self, buf: &mut [u8]) -> (n: usize)
        requires
            old(self)@.wf(),
        ensures
            n == if old(buf)@.len() <= old(self)@.left() {
                old(buf)@.len()
            } else {
                old(self)@.left()
            },
            final(self)@ == old(self)@.advance(n as nat),
            final(buf)@ == old(self)@.rest().subrange(0, n as int) + old(buf)@.subrange(
                n as int,
                old(buf)@.len() as int,
            ),
            *final(final(self).lent()) == *final(old(self).lent()),
    {
        let left = self.end - self.source.consumed;
        let n = if buf.len() <= left {
            buf.len()
        } else {
            left
        };
        let mut i: usize = 0;
        while i < n
            invariant
                i <= n <= buf@.len(),
                buf@.len() == old(buf)@.len(),
                *self.source == *old(self).source,
                self.end == old(self).end,
                *final(self.source) == *final(old(self).source),
                self.source.consumed + n <= self.end <= self.source.bytes@.len(),
                forall|j: int| 0 <= j < i ==> buf@[j] == self.source.bytes@[self.source.consumed + j],
                forall|j: int| i <= j < buf@.len() ==> buf@[j] == old(buf)@[j],
            decreases n - i,
        {
            buf[i] = self.source.bytes[self.source.consumed + i];
            i += 1;
        }
        self.source.consumed = self.source.consumed + n;
        proof {
            assert(buf@ =~= old(self)@.rest().subrange(0, n as int) + old(buf)@.subrange(
                n as int,
                old(buf)@.len() as int,
            ));
        }
        n
    }

    /// Consumes `n` bytes, or all that are left where that is fewer, and
    /// returns how many were consumed.
    pub fn skip_exact_0(&mut self, n: u64) -> (skipped: u64)
        requires
            old(self)@.wf(),
        ensures
            skipped == if n <= old(self)@.left() {
                n as nat
            } else {
                old(self)@.left()
            },
            final(self)@ == old(self)@.advance(n as nat),
            *final(final(self).lent()) == *final(old(self).lent()),
    {
        let left = self.end - self.source.consumed;
        if n <= left as u64 {
            self.source.consumed = self.source.consumed + n as usize;
            n
        } else {
            self.source.consumed = self.end;
            left as u64
        }
    }

    /// Returns every byte that is left and consumes them.
    pub fn read_to_vec(&mut self) -> (bytes: Vec<u8>)
        requires
            old(self)@.wf(),
        ensures
            bytes@ == old(self)@.rest(),
            final(self)@ == old(self)@.advance(old(self)@.left()),
            *final(final(self).lent()) == *final(old(self).lent()),
    {
        let mut bytes: Vec<u8> = Vec::new();
        let start = self.source.consumed;
        let mut i: usize = start;
        while i < self.end
            invariant
                start <= i <= self.end <= self.source.bytes@.len(),
                *self.source == *old(self).source,
                self.end == old(self).end,
                *final(self.source) == *final(old(self).source),
                start == self.source.consumed,
                bytes@ == self.source.bytes@.subrange(start as int, i as int),
            decreases self.end - i,
        {
            bytes.push(self.source.bytes[i]);
            proof {
                assert(bytes@ =~= self.source.bytes@.subrange(start as int, i + 1));
            }
            i += 1;
        }
        self.source.consumed = self.end;
        bytes
    }
}

} // verus!
