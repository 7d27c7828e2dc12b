use vstd::prelude::*;

verus! {

/// A half-open range `[start, end)` on a named contig.
#[derive(Clone, Debug)]
pub struct GenomicInterval {
    pub contig: String,
    pub start: u64,
    pub end: u64,
}

impl View for GenomicInterval {
    type V = (Seq<char>, u64, u64);

    open spec fn view(&self) -> (Seq<char>, u64, u64) {
        (self.contig@, self.start, self.end)
    }
}

/// `a - b`, floored at zero.
pub open spec fn saturating_sub(a: u64, b: u64) -> int {
    if a >= b { a - b } else { 0 }
}

/// Whether interval `next` joins interval `last` of a batch whose window is `window`:
/// same contig, and `next.start - window <= last.end + window` (the left side floored at zero).
pub open spec fn joins(last: (Seq<char>, u64, u64), next: (Seq<char>, u64, u64), window: u64) -> bool {
    last.0 == next.0 && saturating_sub(next.1, window) <= last.2 + window
}

/// The batch `batch` after pushing `next`: the last entry is extended to `next`'s end where
/// `next` joins it, and `next` is appended otherwise.
pub open spec fn pushed(
    batch: Seq<(Seq<char>, u64, u64)>,
    window: u64,
    next: (Seq<char>, u64, u64),
) -> Seq<(Seq<char>, u64, u64)> {
    if batch.len() > 0 && joins(batch.last(), next, window) {
        batch.update(batch.len() - 1, (batch.last().0, batch.last().1, next.2))
    } else {
        batch.push(next)
    }
}

impl GenomicInterval {
    pub open spec fn wf(&self) -> bool {
        self.start <= self.end
    }

    pub fn new(contig: String, start: u64, end: u64) -> (r: GenomicInterval)
        requires
            start <= end,
        ensures
            r@ == (contig@, start, end),
            r.wf(),
    {
        GenomicInterval { contig, start, end }
    }

    pub fn contig(&self) -> (r: &String)
        ensures
            r@ == self.contig@,
    {
        &self.contig
    }

    pub fn start(&self) -> (r: u64)
        ensures
            r == self.start,
    {
        self.start
    }

    pub fn end(&self) -> (r: u64)
        ensures
            r == self.end,
    {
        self.end
    }
}

/// Intervals queued for fetching, in push order, with nearby ones on one contig merged.
pub struct Fetches {
    fetches: Vec<GenomicInterval>,
    window: u64,
}

impl View for Fetches {
    type V = Seq<(Seq<char>, u64, u64)>;

    closed spec fn view(&self) -> Seq<(Seq<char>, u64, u64)> {
        self.fetches@.map_values(|i: GenomicInterval| i@)
    }
}

impl Fetches {
    pub closed spec fn spec_window(&self) -> u64 {
        self.window
    }

    /// An empty batch whose merges are decided with `window`.
    pub fn new(window: u64) -> (r: Fetches)
        ensures
            r@ == Seq::<(Seq<char>, u64, u64)>::empty(),
            r.spec_window() == window,
    {
        Fetches { fetches: Vec::new(), window }
    }

    pub fn window(&self) -> (r: u64)
        ensures
            r == self.spec_window(),
    {
        self.window
    }

    pub fn len(&self) -> (r: usize)
        ensures
            r == self@.len(),
    {
        self.fetches.len()
    }

    pub fn get(&self, i: usize) -> (r: &GenomicInterval)
        requires
            i < self@.len(),
        ensures
            r@ == self@[i as int],
    {
        &self.fetches[i]
    }

    /// Queues `interval`, extending the last entry where `interval` joins it.
    pub fn push(&mut self, interval: &GenomicInterval)
        ensures
            final(self)@ == pushed(old(self)@, old(self).spec_window(), interval@),
            final(self).spec_window() == old(self).spec_window(),
    {
        let n = self.fetches.len();
        if n > 0 {
            let last = &self.fetches[n - 1];
            let lower: u64 = if interval.start >= self.window {
                interval.start - self.window
            } else {
                0
            };
            let near = if last.end > u64::MAX - self.window {
                true
            } else {
                lower <= last.end + self.window
            };
            if near && last.contig == interval.contig {
                let merged = GenomicInterval {
                    contig: last.contig.clone(),
                    start: last.start,
                    end: interval.end,
                };
                self.fetches.set(n - 1, merged);
                assert(self@ =~= pushed(old(self)@, old(self).spec_window(), interval@));
                return;
            }
        }
        self.fetches.push(interval.clone_interval());
        assert(self@ =~= pushed(old(self)@, old(self).spec_window(), interval@));
    }
}

impl GenomicInterval {
    pub fn clone_interval(&self) -> (r: GenomicInterval)
        ensures
            r@ == self@,
    {
        GenomicInterval { contig: self.contig.clone(), start: self.start, end: self.end }
    }
}

/// Pushing `a` and then `b` on an empty batch gives the single entry `[a.start, b.end)` on
/// `a`'s contig when `b` is on that contig and `b.start - window <= a.end + window` (the left
/// side floored at zero), and gives the two entries `a`, `b` in that order otherwise.
pub proof fn lemma_push_two(a: (Seq<char>, u64, u64), b: (Seq<char>, u64, u64), window: u64)
    ensures
        a.0 == b.0 && saturating_sub(b.1, window) <= a.2 + window ==> pushed(
            pushed(Seq::empty(), window, a),
            window,
            b,
        ) == seq![(a.0, a.1, b.2)],
        !(a.0 == b.0 && saturating_sub(b.1, window) <= a.2 + window) ==> pushed(
            pushed(Seq::empty(), window, a),
            window,
            b,
        ) == seq![a, b],
{
    let one = pushed(Seq::empty(), window, a);
    assert(one =~= seq![a]);
    if joins(a, b, window) {
        assert(pushed(one, window, b) =~= seq![(a.0, a.1, b.2)]);
    } else {
        assert(pushed(one, window, b) =~= seq![a, b]);
    }
}

} // verus!
