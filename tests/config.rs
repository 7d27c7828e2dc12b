use sample_window::{
    AlignmentStatistics, ProtocolStrandedness, SampleBuildError, SampleBuilder, SubsampleCandidates,
    VariantKind, DEFAULT_MAX_DEPTH,
};

fn stats() -> AlignmentStatistics {
    AlignmentStatistics {
        insert_size_mean_millis: 300_000,
        insert_size_sd_millis: 50_000,
        max_read_len: 150,
    }
}

#[test]
fn strandedness_defaults_to_opposite() {
    assert_eq!(ProtocolStrandedness::default(), ProtocolStrandedness::Opposite);
    assert_eq!(ProtocolStrandedness::Opposite.name(), "opposite");
    assert_eq!(ProtocolStrandedness::Same.name(), "same");
}

#[test]
fn build_without_alignments_fails() {
    let r = SampleBuilder::new()
        .protocol_strandedness(ProtocolStrandedness::Same)
        .build();
    assert_eq!(r.err(), Some(SampleBuildError::MissingAlignments));
}

#[test]
fn build_without_strandedness_fails() {
    let r = SampleBuilder::new().alignments(stats()).build();
    assert_eq!(r.err(), Some(SampleBuildError::MissingProtocolStrandedness));
}

#[test]
fn build_with_zero_depth_fails() {
    let r = SampleBuilder::new()
        .alignments(stats())
        .protocol_strandedness(ProtocolStrandedness::Opposite)
        .max_depth(0)
        .build();
    assert_eq!(r.err(), Some(SampleBuildError::ZeroMaxDepth));
}

#[test]
fn build_with_defaults() {
    let s = SampleBuilder::new()
        .alignments(stats())
        .protocol_strandedness(ProtocolStrandedness::Opposite)
        .build()
        .unwrap();
    assert!(s.use_fragment_evidence());
    assert_eq!(s.max_depth(), DEFAULT_MAX_DEPTH);
    assert_eq!(s.max_depth(), 200);
    assert!(!s.omits_repeat_regions(VariantKind::Deletion));
    assert_eq!(s.protocol_strandedness(), ProtocolStrandedness::Opposite);
    assert_eq!(s.record_buffer().window(true), 600);
    assert_eq!(s.record_buffer().window(false), 150);
    assert_eq!(*s.alignment_statistics(), stats());
}

#[test]
fn build_with_settings() {
    let s = SampleBuilder::new()
        .use_fragment_evidence(false)
        .max_depth(50)
        .omit_repeat_regions(vec![VariantKind::Insertion, VariantKind::Deletion])
        .protocol_strandedness(ProtocolStrandedness::Same)
        .alignments(stats())
        .build()
        .unwrap();
    assert!(!s.use_fragment_evidence());
    assert_eq!(s.max_depth(), 50);
    assert!(s.omits_repeat_regions(VariantKind::Deletion));
    assert!(s.omits_repeat_regions(VariantKind::Insertion));
    assert!(!s.omits_repeat_regions(VariantKind::Snv));
    assert_eq!(s.protocol_strandedness(), ProtocolStrandedness::Same);
    assert!(matches!(s.subsampler(500), SubsampleCandidates::Necessary { .. }));
    assert!(matches!(s.subsampler(50), SubsampleCandidates::NotNeeded));
}

#[test]
fn strandedness_from_name() {
    assert_eq!(ProtocolStrandedness::from_name("opposite"), Some(ProtocolStrandedness::Opposite));
    assert_eq!(ProtocolStrandedness::from_name("same"), Some(ProtocolStrandedness::Same));
    assert_eq!(ProtocolStrandedness::from_name("Same"), None);
    assert_eq!(ProtocolStrandedness::from_name("sam"), None);
    assert_eq!(ProtocolStrandedness::from_name("opposites"), None);
    assert_eq!(ProtocolStrandedness::from_name(""), None);
    assert_eq!(ProtocolStrandedness::from_name("s\u{e4}me"), None);
}

#[test]
fn subsample_seed_setting() {
    let s = SampleBuilder::new()
        .alignments(stats())
        .protocol_strandedness(ProtocolStrandedness::Opposite)
        .build()
        .unwrap();
    assert_eq!(s.subsample_seed(), sample_window::DEFAULT_SEED);
    let s = SampleBuilder::new()
        .alignments(stats())
        .protocol_strandedness(ProtocolStrandedness::Opposite)
        .max_depth(50)
        .subsample_seed(12345)
        .build()
        .unwrap();
    assert_eq!(s.subsample_seed(), 12345);
    let mut a = s.subsampler(500);
    let mut b = SubsampleCandidates::with_seed(50, 500, 12345);
    for _ in 0..2000 {
        assert_eq!(a.keep(), b.keep());
    }
}

#[test]
fn statistics_can_be_updated_in_place() {
    let mut s = SampleBuilder::new()
        .alignments(stats())
        .protocol_strandedness(ProtocolStrandedness::Opposite)
        .build()
        .unwrap();
    s.alignment_statistics_mut().max_read_len = 100;
    assert_eq!(s.alignment_statistics().max_read_len, 100);
    assert_eq!(s.record_buffer().window(false), 150);
}
