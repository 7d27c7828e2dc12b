use vstd::prelude::*;
use crate::buffer::{AlignmentStatistics, RecordBuffer, WindowSizes};
use crate::strandedness::ProtocolStrandedness;
use crate::subsample::{SubsampleCandidates, DEFAULT_SEED};

verus! {

/// Kinds of variants, as far as sample configuration tells them apart.
#[derive(Clone, Copy, Debug, PartialEq, Eq, Structural)]
pub enum VariantKind {
    Snv,
    Mnv,
    Insertion,
    Deletion,
    Inversion,
    Duplication,
    Replacement,
    Breakend,
}

/// Why a sample could not be built.
#[derive(Clone, Copy, Debug, PartialEq, Eq, Structural)]
pub enum SampleBuildError {
    /// No alignments were registered.
    MissingAlignments,
    /// The protocol strandedness was not given.
    MissingProtocolStrandedness,
    /// A maximum depth of zero would drop every observation.
    ZeroMaxDepth,
}

/// Default of `max_depth`.
pub const DEFAULT_MAX_DEPTH: usize = 200;

/// A sequenced sample, e.g. a tumor or a normal sample: its record window, alignment
/// statistics and evidence settings.
#[derive(Debug)]
pub struct Sample {
    record_buffer: RecordBuffer,
    use_fragment_evidence: bool,
    alignment_statistics: AlignmentStatistics,
    max_depth: usize,
    omit_repeat_regions: Vec<VariantKind>,
    protocol_strandedness: ProtocolStrandedness,
    subsample_seed: u64,
}

/// Collects the settings of a `Sample`, with defaults for the optional ones.
#[derive(Debug)]
pub struct SampleBuilder {
    alignments: Option<(RecordBuffer, AlignmentStatistics)>,
    use_fragment_evidence: bool,
    max_depth: usize,
    omit_repeat_regions: Vec<VariantKind>,
    protocol_strandedness: Option<ProtocolStrandedness>,
    subsample_seed: u64,
}

impl SampleBuilder {
    /// Statistics registered with `alignments`, if any.
    pub closed spec fn spec_statistics(&self) -> Option<AlignmentStatistics> {
        match self.alignments {
            Some((_, s)) => Some(s),
            None => None,
        }
    }

    /// The window for the mode, once alignments are registered.
    pub closed spec fn spec_window(&self, read_pair_mode: bool) -> Option<u64> {
        match self.alignments {
            Some((b, _)) => Some(b.spec_window(read_pair_mode)),
            None => None,
        }
    }

    pub closed spec fn spec_use_fragment_evidence(&self) -> bool {
        self.use_fragment_evidence
    }

    pub closed spec fn spec_max_depth(&self) -> usize {
        self.max_depth
    }

    pub closed spec fn spec_omit_repeat_regions(&self) -> Seq<VariantKind> {
        self.omit_repeat_regions@
    }

    pub closed spec fn spec_protocol_strandedness(&self) -> Option<ProtocolStrandedness> {
        self.protocol_strandedness
    }

    pub closed spec fn spec_subsample_seed(&self) -> u64 {
        self.subsample_seed
    }

    /// Whether the windows agree with the registered statistics.
    pub open spec fn windows_match(&self) -> bool {
        match self.spec_statistics() {
            Some(s) => self.spec_window(false) == Some(s.max_read_len) && self.spec_window(true)
                == Some(
                crate::buffer::pair_window_of(s.insert_size_mean_millis, s.insert_size_sd_millis)
                    as u64,
            ),
            None => self.spec_window(false) is None && self.spec_window(true) is None,
        }
    }

    /// A builder with nothing registered: fragment evidence on, a maximum depth of 200, no
    /// variant kinds omitted in repeat regions, no strandedness, and the default seed for
    /// subsampling.
    pub fn new() -> (r: SampleBuilder)
        ensures
            r.spec_statistics() is None,
            r.windows_match(),
            r.spec_use_fragment_evidence(),
            r.spec_max_depth() == DEFAULT_MAX_DEPTH,
            r.spec_omit_repeat_regions() == Seq::<VariantKind>::empty(),
            r.spec_protocol_strandedness() is None,
            r.spec_subsample_seed() == DEFAULT_SEED,
    {
        SampleBuilder {
            alignments: None,
            use_fragment_evidence: true,
            max_depth: DEFAULT_MAX_DEPTH,
            omit_repeat_regions: Vec::new(),
            protocol_strandedness: None,
            subsample_seed: DEFAULT_SEED,
        }
    }

    /// Registers the alignment statistics and derives the record windows from them.
    pub fn alignments(self, alignment_statistics: AlignmentStatistics) -> (r: SampleBuilder)
        ensures
            r.spec_statistics() == Some(alignment_statistics),
            r.windows_match(),
            r.spec_use_fragment_evidence() == self.spec_use_fragment_evidence(),
            r.spec_max_depth() == self.spec_max_depth(),
            r.spec_omit_repeat_regions() == self.spec_omit_repeat_regions(),
            r.spec_protocol_strandedness() == self.spec_protocol_strandedness(),
            r.spec_subsample_seed() == self.spec_subsample_seed(),
    {
        let windows = WindowSizes::from_statistics(&alignment_statistics);
        SampleBuilder {
            alignments: Some((RecordBuffer::new(windows), alignment_statistics)),
            ..self
        }
    }

    pub fn use_fragment_evidence(self, value: bool) -> (r: SampleBuilder)
        ensures
            r.spec_use_fragment_evidence() == value,
            r.spec_statistics() == self.spec_statistics(),
            r.spec_window(false) == self.spec_window(false),
            r.spec_window(true) == self.spec_window(true),
            r.spec_max_depth() == self.spec_max_depth(),
            r.spec_omit_repeat_regions() == self.spec_omit_repeat_regions(),
            r.spec_protocol_strandedness() == self.spec_protocol_strandedness(),
            r.spec_subsample_seed() == self.spec_subsample_seed(),
    {
        SampleBuilder { use_fragment_evidence: value, ..self }
    }

    pub fn max_depth(self, value: usize) -> (r: SampleBuilder)
        ensures
            r.spec_max_depth() == value,
            r.spec_statistics() == self.spec_statistics(),
            r.spec_window(false) == self.spec_window(false),
            r.spec_window(true) == self.spec_window(true),
            r.spec_use_fragment_evidence() == self.spec_use_fragment_evidence(),
            r.spec_omit_repeat_regions() == self.spec_omit_repeat_regions(),
            r.spec_protocol_strandedness() == self.spec_protocol_strandedness(),
            r.spec_subsample_seed() == self.spec_subsample_seed(),
    {
        SampleBuilder { max_depth: value, ..self }
    }

    pub fn omit_repeat_regions(self, value: Vec<VariantKind>) -> (r: SampleBuilder)
        ensures
            r.spec_omit_repeat_regions() == value@,
            r.spec_statistics() == self.spec_statistics(),
            r.spec_window(false) == self.spec_window(false),
            r.spec_window(true) == self.spec_window(true),
            r.spec_use_fragment_evidence() == self.spec_use_fragment_evidence(),
            r.spec_max_depth() == self.spec_max_depth(),
            r.spec_protocol_strandedness() == self.spec_protocol_strandedness(),
            r.spec_subsample_seed() == self.spec_subsample_seed(),
    {
        SampleBuilder { omit_repeat_regions: value, ..self }
    }

    pub fn protocol_strandedness(self, value: ProtocolStrandedness) -> (r: SampleBuilder)
        ensures
            r.spec_protocol_strandedness() == Some(value),
            r.spec_statistics() == self.spec_statistics(),
            r.spec_window(false) == self.spec_window(false),
            r.spec_window(true) == self.spec_window(true),
            r.spec_use_fragment_evidence() == self.spec_use_fragment_evidence(),
            r.spec_max_depth() == self.spec_max_depth(),
            r.spec_omit_repeat_regions() == self.spec_omit_repeat_regions(),
            r.spec_subsample_seed() == self.spec_subsample_seed(),
    {
        SampleBuilder { protocol_strandedness: Some(value), ..self }
    }

    /// Sets the seed of the generator that subsampling starts from at each site.
    pub fn subsample_seed(self, value: u64) -> (r: SampleBuilder)
        ensures
            r.spec_subsample_seed() == value,
            r.spec_statistics() == self.spec_statistics(),
            r.spec_window(false) == self.spec_window(false),
            r.spec_window(true) == self.spec_window(true),
            r.spec_use_fragment_evidence() == self.spec_use_fragment_evidence(),
            r.spec_max_depth() == self.spec_max_depth(),
            r.spec_omit_repeat_regions() == self.spec_omit_repeat_regions(),
            r.spec_protocol_strandedness() == self.spec_protocol_strandedness(),
    {
        SampleBuilder { subsample_seed: value, ..self }
    }

    /// The sample, or the first missing or invalid setting: alignments, then strandedness,
    /// then a zero maximum depth.
    pub fn build(self) -> (r: Result<Sample, SampleBuildError>)
        ensures
            self.spec_statistics() is None ==> r == Err::<Sample, _>(
                SampleBuildError::MissingAlignments,
            ),
            self.spec_statistics() is Some && self.spec_protocol_strandedness() is None ==> r
                == Err::<Sample, _>(SampleBuildError::MissingProtocolStrandedness),
            self.spec_statistics() is Some && self.spec_protocol_strandedness() is Some
                && self.spec_max_depth() == 0 ==> r == Err::<Sample, _>(
                SampleBuildError::ZeroMaxDepth,
            ),
            self.spec_statistics() is Some && self.spec_protocol_strandedness() is Some
                && self.spec_max_depth() > 0 ==> r is Ok,
            r matches Ok(s) ==> {
                &&& Some(s.spec_statistics()) == self.spec_statistics()
                &&& Some(s.spec_window(false)) == self.spec_window(false)
                &&& Some(s.spec_window(true)) == self.spec_window(true)
                &&& s.spec_use_fragment_evidence() == self.spec_use_fragment_evidence()
                &&& s.spec_max_depth() == self.spec_max_depth()
                &&& s.spec_max_depth() > 0
                &&& s.spec_omit_repeat_regions() == self.spec_omit_repeat_regions()
                &&& Some(s.spec_protocol_strandedness()) == self.spec_protocol_strandedness()
                &&& s.spec_subsample_seed() == self.spec_subsample_seed()
            },
    {
        let SampleBuilder {
            alignments,
            use_fragment_evidence,
            max_depth,
            omit_repeat_regions,
            protocol_strandedness,
            subsample_seed,
        } = self;
        match alignments {
            Some((record_buffer, alignment_statistics)) => match protocol_strandedness {
                Some(protocol_strandedness) => {
                    if max_depth == 0 {
                        Err(SampleBuildError::ZeroMaxDepth)
                    } else {
                        Ok(
                            Sample {
                                record_buffer,
                                use_fragment_evidence,
                                alignment_statistics,
                                max_depth,
                                omit_repeat_regions,
                                protocol_strandedness,
                                subsample_seed,
                            },
                        )
                    }
                },
                None => Err(SampleBuildError::MissingProtocolStrandedness),
            },
            None => Err(SampleBuildError::MissingAlignments),
        }
    }
}

impl Sample {
    pub closed spec fn spec_statistics(&self) -> AlignmentStatistics {
        self.alignment_statistics
    }

    pub closed spec fn spec_window(&self, read_pair_mode: bool) -> u64 {
        self.record_buffer.spec_window(read_pair_mode)
    }

    pub closed spec fn spec_use_fragment_evidence(&self) -> bool {
        self.use_fragment_evidence
    }

    pub closed spec fn spec_max_depth(&self) -> usize {
        self.max_depth
    }

    pub closed spec fn spec_omit_repeat_regions(&self) -> Seq<VariantKind> {
        self.omit_repeat_regions@
    }

    pub closed spec fn spec_protocol_strandedness(&self) -> ProtocolStrandedness {
        self.protocol_strandedness
    }

    pub closed spec fn spec_subsample_seed(&self) -> u64 {
        self.subsample_seed
    }

    pub fn subsample_seed(&self) -> (r: u64)
        ensures
            r == self.spec_subsample_seed(),
    {
        self.subsample_seed
    }

    pub fn record_buffer(&self) -> (r: &RecordBuffer)
        ensures
            r.spec_window(false) == self.spec_window(false),
            r.spec_window(true) == self.spec_window(true),
    {
        &self.record_buffer
    }

    pub fn alignment_statistics(&self) -> (r: &AlignmentStatistics)
        ensures
            *r == self.spec_statistics(),
    {
        &self.alignment_statistics
    }

    /// The statistics, for evidence extraction that refines them in place.
    pub fn alignment_statistics_mut(&mut self) -> (r: &mut AlignmentStatistics)
        ensures
            *r == old(self).spec_statistics(),
            final(self).spec_statistics() == *final(r),
            final(self).spec_window(false) == old(self).spec_window(false),
            final(self).spec_window(true) == old(self).spec_window(true),
            final(self).spec_use_fragment_evidence() == old(self).spec_use_fragment_evidence(),
            final(self).spec_max_depth() == old(self).spec_max_depth(),
            final(self).spec_omit_repeat_regions() == old(self).spec_omit_repeat_regions(),
            final(self).spec_protocol_strandedness() == old(self).spec_protocol_strandedness(),
            final(self).spec_subsample_seed() == old(self).spec_subsample_seed(),
    {
        &mut self.alignment_statistics
    }

    pub fn use_fragment_evidence(&self) -> (r: bool)
        ensures
            r == self.spec_use_fragment_evidence(),
    {
        self.use_fragment_evidence
    }

    pub fn max_depth(&self) -> (r: usize)
        ensures
            r == self.spec_max_depth(),
    {
        self.max_depth
    }

    pub fn protocol_strandedness(&self) -> (r: ProtocolStrandedness)
        ensures
            r == self.spec_protocol_strandedness(),
    {
        self.protocol_strandedness
    }

    /// Whether evidence of `kind` is left out in repeat regions.
    pub fn omits_repeat_regions(&self, kind: VariantKind) -> (r: bool)
        ensures
            r == self.spec_omit_repeat_regions().contains(kind),
    {
        let mut i: usize = 0;
        while i < self.omit_repeat_regions.len()
            invariant
                i <= self.omit_repeat_regions@.len(),
                forall|j: int| 0 <= j < i ==> self.omit_repeat_regions@[j] != kind,
            decreases self.omit_repeat_regions@.len() - i,
        {
            if self.omit_repeat_regions[i] == kind {
                return true;
            }
            i += 1;
        }
        false
    }

    /// The subsampler for a site with `depth` candidates, of which about `max_depth` stay.
    pub fn subsampler(&self, depth: usize) -> (r: SubsampleCandidates)
        ensures
            r.wf(),
            depth > self.spec_max_depth() ==> r.thinning() == Some((self.spec_max_depth(), depth))
                && r.generator() == Some((self.spec_subsample_seed(), 0nat)),
            depth <= self.spec_max_depth() ==> r.thinning() == None::<(usize, usize)>,
    {
        SubsampleCandidates::with_seed(self.max_depth, depth, self.subsample_seed)
    }
}

} // verus!
