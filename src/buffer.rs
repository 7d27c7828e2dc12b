use vstd::prelude::*;
use crate::interval::{saturating_sub, Fetches, GenomicInterval};

verus! {

/// Alignment statistics of a sample, in plain integers: insert size mean and standard
/// deviation in thousandths of a base, and the longest read length in bases.
#[derive(Clone, Copy, Debug, PartialEq, Eq, Structural)]
pub struct AlignmentStatistics {
    pub insert_size_mean_millis: u64,
    pub insert_size_sd_millis: u64,
    pub max_read_len: u64,
}

/// `mean + 6 * sd` in bases, rounded to the nearest integer with halves rounded up, for
/// `mean` and `sd` given in thousandths of a base.
pub open spec fn pair_window_of(mean_millis: u64, sd_millis: u64) -> int {
    (mean_millis + 6 * sd_millis + 500) / 1000
}

/// How far a locus is widened before records are loaded.
#[derive(Clone, Copy, Debug, PartialEq, Eq, Structural)]
pub struct WindowSizes {
    pub single_read_window: u64,
    pub read_pair_window: u64,
}

impl WindowSizes {
    /// The windows of a sample: the longest read for single reads, and the mean insert size
    /// plus six standard deviations for read pairs.
    pub fn from_statistics(stats: &AlignmentStatistics) -> (r: WindowSizes)
        ensures
            r.single_read_window == stats.max_read_len,
            r.read_pair_window == pair_window_of(
                stats.insert_size_mean_millis,
                stats.insert_size_sd_millis,
            ),
    {
        let total = stats.insert_size_mean_millis as u128 + 6 * (stats.insert_size_sd_millis as u128)
            + 500;
        let pair = total / 1000;
        assert(pair <= u64::MAX);
        WindowSizes { single_read_window: stats.max_read_len, read_pair_window: pair as u64 }
    }
}

/// The record window of a sample: decides which region of the alignment store is loaded
/// for a locus.
#[derive(Clone, Copy, Debug)]
pub struct RecordBuffer {
    single_read_window: u64,
    read_pair_window: u64,
}

/// The region loaded for `interval` under `window`: `[start - window, end + window)` on the
/// same contig, with the start floored at zero.
pub open spec fn fetch_region_of(interval: (Seq<char>, u64, u64), window: u64) -> (
    Seq<char>,
    int,
    int,
) {
    (interval.0, saturating_sub(interval.1, window), interval.2 + window)
}

impl RecordBuffer {
    pub closed spec fn spec_window(&self, read_pair_mode: bool) -> u64 {
        if read_pair_mode {
            self.read_pair_window
        } else {
            self.single_read_window
        }
    }

    pub fn new(windows: WindowSizes) -> (r: RecordBuffer)
        ensures
            r.spec_window(false) == windows.single_read_window,
            r.spec_window(true) == windows.read_pair_window,
    {
        RecordBuffer {
            single_read_window: windows.single_read_window,
            read_pair_window: windows.read_pair_window,
        }
    }

    pub fn single_read_window(&self) -> (r: u64)
        ensures
            r == self.spec_window(false),
    {
        self.single_read_window
    }

    pub fn read_pair_window(&self) -> (r: u64)
        ensures
            r == self.spec_window(true),
    {
        self.read_pair_window
    }

    /// The window for read pairs or for single reads.
    pub fn window(&self, read_pair_mode: bool) -> (r: u64)
        ensures
            r == self.spec_window(read_pair_mode),
    {
        if read_pair_mode {
            self.read_pair_window
        } else {
            self.single_read_window
        }
    }

    /// The region to load from the store for `interval`.
    pub fn fetch_region(&self, interval: &GenomicInterval, read_pair_mode: bool) -> (r:
        GenomicInterval)
        requires
            interval.end + self.spec_window(read_pair_mode) <= u64::MAX,
        ensures
            (r.contig@, r.start as int, r.end as int) == fetch_region_of(
                interval@,
                self.spec_window(read_pair_mode),
            ),
    {
        let window = self.window(read_pair_mode);
        let start: u64 = if interval.start >= window {
            interval.start - window
        } else {
            0
        };
        GenomicInterval { contig: interval.contig.clone(), start, end: interval.end + window }
    }

    /// An empty batch of fetches that merges by the window of the given mode.
    pub fn build_fetches(&self, read_pair_mode: bool) -> (r: Fetches)
        ensures
            r@ == Seq::<(Seq<char>, u64, u64)>::empty(),
            r.spec_window() == self.spec_window(read_pair_mode),
    {
        Fetches::new(self.window(read_pair_mode))
    }
}

} // verus!
