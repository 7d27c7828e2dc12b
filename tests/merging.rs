use sample_window::{Fetches, GenomicInterval, RecordBuffer, WindowSizes};

fn iv(contig: &str, start: u64, end: u64) -> GenomicInterval {
    GenomicInterval::new(contig.to_string(), start, end)
}

fn entries(f: &Fetches) -> Vec<(String, u64, u64)> {
    let mut out = Vec::new();
    for i in 0..f.len() {
        let e = f.get(i);
        out.push((e.contig().clone(), e.start(), e.end()));
    }
    out
}

#[test]
fn nearby_intervals_on_one_contig_merge() {
    let mut f = Fetches::new(100);
    f.push(&iv("chr1", 1000, 1100));
    // 1400 - 100 <= 1100 + 100
    f.push(&iv("chr1", 1300, 1400));
    assert_eq!(entries(&f), vec![("chr1".to_string(), 1000, 1400)]);
}

#[test]
fn merge_threshold_is_inclusive() {
    let mut f = Fetches::new(100);
    f.push(&iv("chr1", 1000, 1100));
    f.push(&iv("chr1", 1300, 1350));
    f.push(&iv("chr1", 1551, 1600));
    assert_eq!(
        entries(&f),
        vec![("chr1".to_string(), 1000, 1350), ("chr1".to_string(), 1551, 1600)]
    );
}

#[test]
fn larger_gap_keeps_entries_apart() {
    let mut f = Fetches::new(100);
    f.push(&iv("chr1", 1000, 1100));
    f.push(&iv("chr1", 1301, 1400));
    assert_eq!(
        entries(&f),
        vec![("chr1".to_string(), 1000, 1100), ("chr1".to_string(), 1301, 1400)]
    );
}

#[test]
fn other_contig_is_never_merged() {
    let mut f = Fetches::new(100);
    f.push(&iv("chr1", 1000, 1100));
    f.push(&iv("chr2", 1000, 1100));
    f.push(&iv("chr1", 1050, 1150));
    assert_eq!(
        entries(&f),
        vec![
            ("chr1".to_string(), 1000, 1100),
            ("chr2".to_string(), 1000, 1100),
            ("chr1".to_string(), 1050, 1150)
        ]
    );
}

#[test]
fn start_below_window_saturates_at_zero() {
    let mut f = Fetches::new(500);
    f.push(&iv("chr1", 10, 20));
    f.push(&iv("chr1", 300, 400));
    assert_eq!(entries(&f), vec![("chr1".to_string(), 10, 400)]);
}

#[test]
fn merge_takes_the_end_of_the_new_interval() {
    let mut f = Fetches::new(0);
    f.push(&iv("chr1", 100, 500));
    f.push(&iv("chr1", 200, 300));
    assert_eq!(entries(&f), vec![("chr1".to_string(), 100, 300)]);
}

#[test]
fn window_at_type_limit_merges() {
    let mut f = Fetches::new(u64::MAX);
    f.push(&iv("chr1", 0, 10));
    f.push(&iv("chr1", u64::MAX - 1, u64::MAX));
    assert_eq!(entries(&f), vec![("chr1".to_string(), 0, u64::MAX)]);
}

#[test]
fn build_fetches_uses_mode_window() {
    let b = RecordBuffer::new(WindowSizes { single_read_window: 150, read_pair_window: 600 });
    assert_eq!(b.build_fetches(false).window(), 150);
    assert_eq!(b.build_fetches(true).window(), 600);
    assert_eq!(b.build_fetches(true).len(), 0);
}
