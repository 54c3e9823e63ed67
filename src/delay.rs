use vstd::prelude::*;

verus! {

/// The history after one more sample is written: the new sample becomes the
/// most recent one and the oldest falls off the end.
pub open spec fn push_sample<T>(h: Seq<T>, x: T) -> Seq<T> {
    seq![x] + h.subrange(0, h.len() - 1)
}

/// The history after the samples of `xs` are written, first to last.
pub open spec fn push_all<T>(h: Seq<T>, xs: Seq<T>) -> Seq<T>
    decreases xs.len(),
{
    if xs.len() == 0 {
        h
    } else {
        push_all(push_sample(h, xs[0]), xs.drop_first())
    }
}

/// The sample an exact read at `offset` returns, for `offset <= h.len()`:
/// offset `k >= 1` is the sample written `k` writes ago, and offset zero
/// wraps round to the oldest slot.
pub open spec fn tap<T>(h: Seq<T>, offset: int) -> T {
    if offset == 0 {
        h[h.len() - 1]
    } else {
        h[offset - 1]
    }
}

/// A fixed-capacity circular buffer of samples with a write cursor.
///
/// Its view is the history: element `i` is the sample written `i + 1`
/// writes ago (or the initial fill where fewer writes have happened).
pub struct DelayLine<T> {
    buffer: Vec<T>,
    write_pos: usize,
}

impl<T: Copy> DelayLine<T> {
    pub closed spec fn slot(&self, i: int) -> int {
        if self.write_pos >= i + 1 {
            self.write_pos - 1 - i
        } else {
            self.write_pos + self.buffer.len() - 1 - i
        }
    }

    pub closed spec fn view(&self) -> Seq<T> {
        Seq::new(self.buffer.len() as nat, |i: int| self.buffer@[self.slot(i)])
    }

    /// The position of the write cursor within the buffer.
    pub closed spec fn cursor(&self) -> nat {
        self.write_pos as nat
    }

    pub closed spec fn wf(&self) -> bool {
        ||| self.write_pos < self.buffer.len()
        ||| (self.buffer.len() == 0 && self.write_pos == 0)
    }

    /// A line of `size` slots, all holding `silence`.
    pub fn new_samples(size: usize, silence: T) -> (r: Self)
        ensures
            r.wf(),
            r.view() == Seq::new(size as nat, |i: int| silence),
            r.cursor() == 0,
    {
        let mut buffer: Vec<T> = Vec::with_capacity(size);
        let mut i: usize = 0;
        while i < size
            invariant
                i <= size,
                buffer@ == Seq::new(i as nat, |k: int| silence),
            decreases size - i,
        {
            buffer.push(silence);
            i = i + 1;
        }
        let r = DelayLine { buffer, write_pos: 0 };
        assert(r.view() =~= Seq::new(size as nat, |i: int| silence));
        r
    }

    /// The number of slots, fixed at construction.
    pub fn capacity(&self) -> (r: usize)
        ensures
            r == self.view().len(),
    {
        self.buffer.len()
    }

    /// Stores a sample at the cursor and advances the cursor.
    pub fn write(&mut self, sample: T)
        requires
            old(self).wf(),
            old(self).view().len() > 0,
        ensures
            final(self).wf(),
            final(self).view() == push_sample(old(self).view(), sample),
            final(self).cursor() == if old(self).cursor() + 1 == old(self).view().len() {
                0
            } else {
                old(self).cursor() + 1
            },
    {
        let ghost h = self.view();
        let len = self.buffer.len();
        let wp = self.write_pos;
        self.buffer.set(wp, sample);
        self.write_pos = if wp + 1 == len { 0 } else { wp + 1 };
        assert(self.view() =~= push_sample(h, sample));
    }

    /// Reads the sample `offset` writes ago, exactly; offset zero reads the
    /// oldest slot.
    pub fn read_at(&self, offset: usize) -> (r: T)
        requires
            self.wf(),
            0 < self.view().len(),
            offset <= self.view().len(),
        ensures
            r == tap(self.view(), offset as int),
    {
        let len = self.buffer.len();
        let i = if self.write_pos >= offset {
            self.write_pos - offset
        } else {
            len - (offset - self.write_pos)
        };
        let r = self.buffer[i];
        if offset == 0 {
            assert(self.slot(len - 1) == i);
        } else {
            assert(self.slot(offset - 1) == i);
        }
        r
    }

    /// The two neighbouring exact taps around a delay of `offset` samples and
    /// a fraction, as `read_at` gives them: first the tap at `offset + 1`,
    /// then the tap at `offset`. For `offset >= 1` these are the samples
    /// written `offset + 1` and `offset` writes ago; at offset zero the pair
    /// is the newest sample and the oldest slot.
    pub fn read_span(&self, offset: usize) -> (r: (T, T))
        requires
            self.wf(),
            offset < self.view().len(),
        ensures
            r.0 == tap(self.view(), offset as int + 1),
            r.1 == tap(self.view(), offset as int),
    {
        (self.read_at(offset + 1), self.read_at(offset))
    }

    /// Fills every slot with `silence`; the cursor is left where it is.
    pub fn reset(&mut self, silence: T)
        requires
            old(self).wf(),
        ensures
            final(self).wf(),
            final(self).view() == Seq::new(old(self).view().len(), |i: int| silence),
            final(self).cursor() == old(self).cursor(),
    {
        let len = self.buffer.len();
        let mut i: usize = 0;
        while i < len
            invariant
                i <= len,
                len == self.buffer.len(),
                self.write_pos == old(self).write_pos,
                self.wf(),
                forall|k: int| 0 <= k < i ==> self.buffer@[k] == silence,
            decreases len - i,
        {
            self.buffer.set(i, silence);
            i = i + 1;
        }
        assert(self.view() =~= Seq::new(len as nat, |i: int| silence));
    }
}

/// Writing `n` samples moves every older sample `n` places further back.
pub proof fn lemma_push_all_shifts<T>(h: Seq<T>, xs: Seq<T>, j: int)
    requires
        0 <= j,
        j + xs.len() < h.len(),
    ensures
        push_all(h, xs).len() == h.len(),
        push_all(h, xs)[j + xs.len()] == h[j],
    decreases xs.len(),
{
    if xs.len() > 0 {
        let h1 = push_sample(h, xs[0]);
        assert(h1[j + 1] == h[j]);
        lemma_push_all_shifts(h1, xs.drop_first(), j + 1);
    }
}

/// A sample written into a line of capacity `h.len()` and followed by
/// `later.len()` more writes is read back unchanged by an exact read at
/// offset `later.len() + 1`, for any such offset up to the capacity.
pub proof fn lemma_round_trip<T>(h: Seq<T>, x: T, later: Seq<T>)
    requires
        later.len() < h.len(),
    ensures
        tap(push_all(push_sample(h, x), later), later.len() as int + 1) == x,
{
    let h1 = push_sample(h, x);
    assert(h1.len() == h.len());
    lemma_push_all_shifts(h1, later, 0);
}

} // verus!
