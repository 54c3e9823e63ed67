use vstd::prelude::*;
use vstd::math::{max, min};

verus! {

/// The recorded samples that grains are drawn from, and the active region
/// `[start, end)` within them.
pub struct SourceBuffer<T> {
    samples: Vec<T>,
    start: usize,
    end: usize,
}

impl<T: Copy> SourceBuffer<T> {
    pub closed spec fn view(&self) -> Seq<T> {
        self.samples@
    }

    pub closed spec fn region_start_spec(&self) -> nat {
        self.start as nat
    }

    pub closed spec fn region_end_spec(&self) -> nat {
        self.end as nat
    }

    /// `0 <= start <= end <= len`.
    pub open spec fn wf(&self) -> bool {
        self.region_start_spec() <= self.region_end_spec() <= self.view().len()
    }

    /// No samples and an empty region.
    pub fn new() -> (r: Self)
        ensures
            r.wf(),
            r.view().len() == 0,
            r.region_start_spec() == 0,
            r.region_end_spec() == 0,
    {
        SourceBuffer { samples: Vec::new(), start: 0, end: 0 }
    }

    /// Replaces the samples wholesale; the region becomes the whole buffer.
    pub fn set_buffer(&mut self, samples: Vec<T>)
        ensures
            final(self).wf(),
            final(self).view() == samples@,
            final(self).region_start_spec() == 0,
            final(self).region_end_spec() == samples@.len(),
    {
        self.end = samples.len();
        self.start = 0;
        self.samples = samples;
    }

    /// Moves the region, clamped to the buffer: `start` to at most the
    /// length, `end` to between the new start and the length. With no
    /// samples the region is left as it is.
    pub fn set_region(&mut self, start: usize, end: usize)
        requires
            old(self).wf(),
        ensures
            final(self).wf(),
            final(self).view() == old(self).view(),
            old(self).view().len() == 0 ==> final(self).region_start_spec()
                == old(self).region_start_spec() && final(self).region_end_spec()
                == old(self).region_end_spec(),
            old(self).view().len() > 0 ==> final(self).region_start_spec() == min(
                start as int,
                old(self).view().len() as int,
            ),
            old(self).view().len() > 0 ==> final(self).region_end_spec() == max(
                min(end as int, old(self).view().len() as int),
                final(self).region_start_spec() as int,
            ),
    {
        let len = self.samples.len();
        if len == 0 {
            return;
        }
        let s = if start < len { start } else { len };
        let e = if end < len { end } else { len };
        self.start = s;
        self.end = if e > s { e } else { s };
    }

    pub fn len(&self) -> (r: usize)
        ensures
            r == self.view().len(),
    {
        self.samples.len()
    }

    pub fn is_empty(&self) -> (r: bool)
        ensures
            r == (self.view().len() == 0),
    {
        self.samples.len() == 0
    }

    pub fn region_start(&self) -> (r: usize)
        ensures
            r == self.region_start_spec(),
    {
        self.start
    }

    pub fn region_end(&self) -> (r: usize)
        ensures
            r == self.region_end_spec(),
    {
        self.end
    }

    /// The bounds a new grain's start position is clamped into: from the
    /// region's start to the index before its end. `None` where the region
    /// is empty, so that no index of it can start a grain.
    pub fn spawn_bounds(&self) -> (r: Option<(usize, usize)>)
        requires
            self.wf(),
        ensures
            r is None <==> self.region_start_spec() >= self.region_end_spec(),
            r matches Some(b) ==> b.0 == self.region_start_spec() && b.1
                == self.region_end_spec() - 1,
    {
        if self.start >= self.end {
            None
        } else {
            Some((self.start, self.end - 1))
        }
    }

    /// The two samples a read at whole index `pos` blends between: `pos`
    /// and `pos + 1`, where both lie in the buffer; `None` (silence) where
    /// the upper one would not.
    pub fn pair_at(&self, pos: usize) -> (r: Option<(T, T)>)
        ensures
            r is Some <==> pos + 1 < self.view().len(),
            r matches Some(p) ==> p.0 == self.view()[pos as int] && p.1 == self.view()[pos + 1],
    {
        if pos < self.samples.len() && pos + 1 < self.samples.len() {
            Some((self.samples[pos], self.samples[pos + 1]))
        } else {
            None
        }
    }
}

} // verus!
