//! A windowed, filtered and depth-capped view over indexed alignment records.

pub mod buffer;
pub mod flags;
pub mod interval;
pub mod sample;
pub mod strandedness;
pub mod subsample;

pub use flags::{is_valid_record, valid_positions};
pub use interval::{Fetches, GenomicInterval};
pub use strandedness::ProtocolStrandedness;
pub use subsample::{keeps_draw, SeededRng, SubsampleCandidates, DEFAULT_SEED};
pub use buffer::{AlignmentStatistics, RecordBuffer, WindowSizes};
pub use sample::{Sample, SampleBuildError, SampleBuilder, VariantKind, DEFAULT_MAX_DEPTH};
