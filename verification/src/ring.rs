//! Fixed-capacity byte ring buffer with contiguous-run access.
//!
//! The buffer exposes exactly what a single-shot DMA transfer needs: the
//! maximal *contiguous* free run (a producer commits bytes into it) and the
//! maximal *contiguous* filled run (a consumer releases bytes from it).
//! Wrap-around is hidden; a caller that wants every byte may need two rounds.

use vstd::prelude::*;

verus! {

/// A fixed-capacity byte ring buffer.
///
/// The filled region holds `len` bytes beginning at index `start` of `buf`,
/// wrapping past the end; the rest of `buf` is the free region. The abstract
/// value (`@`) is the sequence of filled bytes, oldest first.
pub struct RingBuffer {
    buf: Vec<u8>,
    start: usize,
    len: usize,
}

impl View for RingBuffer {
    type V = Seq<u8>;

    closed spec fn view(&self) -> Seq<u8> {
        if self.start + self.len <= self.buf.len() {
            self.buf@.subrange(self.start as int, self.start + self.len)
        } else {
            self.buf@.subrange(self.start as int, self.buf.len() as int) + self.buf@.subrange(
                0,
                self.start + self.len - self.buf.len(),
            )
        }
    }
}

impl RingBuffer {
    /// Total number of bytes the buffer can hold.
    pub closed spec fn capacity(&self) -> int {
        self.buf.len() as int
    }

    /// The representation invariant: `start` indexes into the storage and the
    /// filled region fits in it.
    pub closed spec fn wf(&self) -> bool {
        &&& self.len <= self.buf.len()
        &&& (self.buf.len() == 0 ==> self.start == 0)
        &&& (self.buf.len() > 0 ==> self.start < self.buf.len())
    }

    /// Index of the oldest filled byte in the storage. Together with the
    /// abstract value and the capacity it determines both contiguous runs
    /// (see [`Self::lemma_shape`]).
    pub closed spec fn head(&self) -> int {
        self.start as int
    }

    /// Index just past the filled region, wrapped: where the next committed
    /// byte lands.
    closed spec fn wpos(&self) -> int {
        if self.start + self.len >= self.buf.len() {
            self.start + self.len - self.buf.len()
        } else {
            self.start + self.len
        }
    }

    /// Length of the maximal contiguous free run starting at the write
    /// position.
    pub closed spec fn free_run(&self) -> int {
        if self.buf.len() == 0 || self.len == self.buf.len() {
            0
        } else if self.wpos() < self.start {
            self.start - self.wpos()
        } else {
            self.buf.len() - self.wpos()
        }
    }

    /// Length of the maximal contiguous filled run starting at the read
    /// position.
    pub closed spec fn filled_run(&self) -> int {
        if self.buf.len() == 0 {
            0
        } else if self.len <= self.buf.len() - self.start {
            self.len as int
        } else {
            self.buf.len() - self.start
        }
    }

    /// How the contiguous runs relate to the abstract value: the filled and
    /// free regions never overlap, so their sizes always sum to the capacity,
    /// and each contiguous run is a part of its region.
    pub proof fn lemma_shape(&self)
        requires
            self.wf(),
        ensures
            self@.len() <= self.capacity(),
            0 <= self.filled_run() <= self@.len(),
            0 <= self.free_run() <= self.capacity() - self@.len(),
            self.filled_run() > 0 <==> self@.len() > 0,
            self.free_run() > 0 <==> self@.len() < self.capacity(),
            self.capacity() == 0 ==> self.head() == 0,
            self.capacity() > 0 ==> 0 <= self.head() < self.capacity(),
            self.filled_run() == (if self@.len() <= self.capacity() - self.head() {
                self@.len() as int
            } else {
                self.capacity() - self.head()
            }),
            self.free_run() == (if self@.len() == self.capacity() {
                0
            } else if self.head() + self@.len() >= self.capacity() {
                self.capacity() - self@.len()
            } else {
                self.capacity() - self.head() - self@.len()
            }),
    {
        assert(self@.len() == self.len);
    }

    /// An empty buffer of the given capacity.
    pub fn new(capacity: usize) -> (r: Self)
        ensures
            r.wf(),
            r@ == Seq::<u8>::empty(),
            r.capacity() == capacity,
            r.head() == 0,
    {
        let mut buf: Vec<u8> = Vec::new();
        let mut i: usize = 0;
        while i < capacity
            invariant
                buf@.len() == i,
                i <= capacity,
            decreases capacity - i,
        {
            buf.push(0);
            i = i + 1;
        }
        let r = RingBuffer { buf, start: 0, len: 0 };
        proof {
            assert(r@ =~= Seq::<u8>::empty());
        }
        r
    }

    /// Number of filled bytes.
    pub fn len(&self) -> (r: usize)
        requires
            self.wf(),
        ensures
            r == self@.len(),
    {
        proof {
            assert(self@.len() == self.len);
        }
        self.len
    }

    /// Length of the contiguous free run a producer may commit into.
    pub fn push_buf_len(&self) -> (r: usize)
        requires
            self.wf(),
        ensures
            r == self.free_run(),
    {
        let cap = self.buf.len();
        if cap == 0 || self.len == cap {
            0
        } else {
            let w = if self.len >= cap - self.start {
                self.len - (cap - self.start)
            } else {
                self.start + self.len
            };
            if w < self.start {
                self.start - w
            } else {
                cap - w
            }
        }
    }

    /// A copy of the contiguous filled run a consumer may release.
    pub fn pop_buf(&self) -> (r: Vec<u8>)
        requires
            self.wf(),
        ensures
            r@ == self@.take(self.filled_run()),
            r@.len() == self.filled_run(),
    {
        let cap = self.buf.len();
        let n = if cap == 0 {
            0
        } else if self.len <= cap - self.start {
            self.len
        } else {
            cap - self.start
        };
        assert(n == self.filled_run());
        let mut r: Vec<u8> = Vec::new();
        let mut i: usize = 0;
        while i < n
            invariant
                i <= n,
                n == self.filled_run(),
                self.wf(),
                cap == self.buf@.len(),
                n + self.start <= cap,
                r@.len() == i,
                forall|j: int| 0 <= j < i ==> r@[j] == self@[j],
            decreases n - i,
        {
            let b = self.buf[self.start + i];
            proof {
                assert(b == self@[i as int]);
            }
            r.push(b);
            i = i + 1;
        }
        proof {
            assert(r@ =~= self@.take(self.filled_run()));
        }
        r
    }

    /// Commit `n` bytes of `data` into the free run, making them readable.
    pub fn push_from(&mut self, data: &Vec<u8>, n: usize)
        requires
            old(self).wf(),
            n <= old(self).free_run(),
            n <= data@.len(),
        ensures
            final(self).wf(),
            final(self)@ == old(self)@ + data@.take(n as int),
            final(self).capacity() == old(self).capacity(),
            final(self).head() == old(self).head(),
            final(self).filled_run() >= old(self).filled_run(),
    {
        let cap = self.buf.len();
        let w = if cap == 0 {
            0
        } else if self.len >= cap - self.start {
            self.len - (cap - self.start)
        } else {
            self.start + self.len
        };
        proof {
            assert(w == old(self).wpos());
            assert(w + n <= cap);
            assert(old(self).free_run() <= cap - old(self).len);
        }
        let mut i: usize = 0;
        while i < n
            invariant
                i <= n,
                n <= data@.len(),
                self.start == old(self).start,
                self.len == old(self).len,
                self.buf@.len() == old(self).buf@.len(),
                cap == self.buf@.len(),
                w == old(self).wpos(),
                w + n <= cap,
                forall|k: int|
                    0 <= k < cap && !(w <= k < w + i) ==> self.buf@[k] == old(self).buf@[k],
                forall|k: int| 0 <= k < i ==> self.buf@[w + k] == data@[k],
            decreases n - i,
        {
            let b = data[i];
            self.buf[w + i] = b;
            i = i + 1;
        }
        self.len = self.len + n;
        proof {
            assert(self@ =~= old(self)@ + data@.take(n as int));
        }
    }

    /// Release the first `n` bytes of the filled run, making them free again.
    pub fn pop(&mut self, n: usize)
        requires
            old(self).wf(),
            n <= old(self).filled_run(),
        ensures
            final(self).wf(),
            final(self)@ == old(self)@.skip(n as int),
            final(self).capacity() == old(self).capacity(),
            final(self).head() == (if old(self).head() + n == old(self).capacity() {
                0
            } else {
                old(self).head() + n
            }),
            final(self).free_run() >= old(self).free_run(),
    {
        let cap = self.buf.len();
        let s2 = self.start + n;
        self.start = if s2 == cap {
            0
        } else {
            s2
        };
        self.len = self.len - n;
        proof {
            assert(self.wpos() == old(self).wpos());
            assert(self@ =~= old(self)@.skip(n as int));
        }
    }
}

} // verus!
