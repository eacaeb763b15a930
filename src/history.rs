use vstd::prelude::*;

verus! {

/// A history `h` after one more sample `x` is written: `x` comes first
/// and the oldest sample leaves.
pub open spec fn written<T>(h: Seq<T>, x: T) -> Seq<T> {
    seq![x] + h.take(h.len() - 1)
}

/// A history `h` after the samples `xs` are written in order.
pub open spec fn written_all<T>(h: Seq<T>, xs: Seq<T>) -> Seq<T>
    decreases xs.len(),
{
    if xs.len() == 0 {
        h
    } else {
        written(written_all(h, xs.drop_last()), xs.last())
    }
}

/// The closed form of `written_all`: the newest samples in reverse order of
/// writing, then what remains of the earlier history.
pub open spec fn newest_first<T>(h: Seq<T>, xs: Seq<T>) -> Seq<T> {
    Seq::new(
        h.len(),
        |k: int|
            if k < xs.len() {
                xs[xs.len() - 1 - k]
            } else {
                h[k - xs.len()]
            },
    )
}

/// Writing a sequence of samples into a history keeps its length and
/// leaves the samples most recent first, followed by the older history.
pub proof fn lemma_written_all<T>(h: Seq<T>, xs: Seq<T>)
    requires
        h.len() > 0,
    ensures
        written_all(h, xs) == newest_first(h, xs),
    decreases xs.len(),
{
    if xs.len() > 0 {
        lemma_written_all(h, xs.drop_last());
        assert(written_all(h, xs) =~= newest_first(h, xs));
    }
}

/// A circular history of the last `len()` samples that were written.
///
/// `ago(0)` is the sample written last, `ago(1)` the one before it, and so
/// on up to `ago(len() - 1)`. Writing a sample drops the oldest one.
pub struct History<T> {
    buf: Vec<T>,
    head: usize,
}

impl<T: Copy> History<T> {
    /// Physical slot of the sample written `k` writes ago.
    pub open spec fn slot(head: int, size: int, k: int) -> int {
        if head >= k {
            head - k
        } else {
            head + size - k
        }
    }

    pub closed spec fn wf(&self) -> bool {
        &&& self.buf@.len() > 0
        &&& self.head < self.buf@.len()
    }

    /// The stored samples, most recent first.
    pub closed spec fn view(&self) -> Seq<T> {
        Seq::new(
            self.buf@.len(),
            |k: int| self.buf@[Self::slot(self.head as int, self.buf@.len() as int, k)],
        )
    }

    /// A history of `size` samples, all equal to `fill`.
    pub fn new(size: usize, fill: T) -> (r: Self)
        requires
            size > 0,
        ensures
            r.wf(),
            r@ == Seq::new(size as nat, |_k: int| fill),
    {
        let mut buf: Vec<T> = Vec::with_capacity(size);
        let mut i: usize = 0;
        while i < size
            invariant
                i <= size,
                buf@ == Seq::new(i as nat, |_k: int| fill),
            decreases size - i,
        {
            buf.push(fill);
            i = i + 1;
        }
        let r = History { buf, head: 0 };
        assert(r@ =~= Seq::new(size as nat, |_k: int| fill));
        r
    }

    /// Number of samples held.
    pub fn len(&self) -> (r: usize)
        requires
            self.wf(),
        ensures
            r == self@.len(),
            r > 0,
    {
        self.buf.len()
    }

    /// The sample written `k` writes ago.
    pub fn ago(&self, k: usize) -> (r: T)
        requires
            self.wf(),
            k < self@.len(),
        ensures
            r == self@[k as int],
    {
        let idx: usize = if self.head >= k {
            self.head - k
        } else {
            self.buf.len() - k + self.head
        };
        self.buf[idx]
    }

    /// Stores `x` as the most recent sample, dropping the oldest one.
    pub fn write(&mut self, x: T)
        requires
            old(self).wf(),
        ensures
            final(self).wf(),
            final(self)@ == written(old(self)@, x),
    {
        let size = self.buf.len();
        let head: usize = if self.head + 1 < size {
            self.head + 1
        } else {
            0
        };
        self.buf.set(head, x);
        self.head = head;
        assert(self@ =~= seq![x] + old(self)@.take(old(self)@.len() - 1));
    }

    /// Replaces the history by `size` samples equal to `fill`.
    pub fn reset(&mut self, size: usize, fill: T)
        requires
            size > 0,
        ensures
            final(self).wf(),
            final(self)@ == Seq::new(size as nat, |_k: int| fill),
    {
        *self = History::new(size, fill);
    }
}

} // verus!
