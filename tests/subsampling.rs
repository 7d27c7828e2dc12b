use sample_window::{keeps_draw, SubsampleCandidates};

#[test]
fn keep_rule_is_exact() {
    // keep probability 1/2: a draw stands for draw / 2^64
    assert!(keeps_draw(0, 1, 2));
    assert!(keeps_draw(1 << 63, 1, 2));
    assert!(!keeps_draw((1 << 63) + 1, 1, 2));
    assert!(!keeps_draw(u64::MAX, 1, 2));
    // keep probability 0
    assert!(keeps_draw(0, 0, 5));
    assert!(!keeps_draw(1, 0, 5));
    // keep probability 1 or above
    assert!(keeps_draw(u64::MAX, 3, 3));
}

#[test]
fn no_thinning_keeps_everything() {
    let mut s = SubsampleCandidates::new(200, 200);
    assert!(matches!(s, SubsampleCandidates::NotNeeded));
    for _ in 0..1000 {
        assert!(s.keep());
    }
    let mut s = SubsampleCandidates::with_seed(10, 0, 7);
    assert!(s.keep());
}

#[test]
fn thinning_when_deeper_than_max() {
    let s = SubsampleCandidates::new(50, 500);
    match s {
        SubsampleCandidates::Necessary { max_depth, depth, .. } => {
            assert_eq!((max_depth, depth), (50, 500));
        }
        SubsampleCandidates::NotNeeded => panic!("expected thinning"),
    }
}

#[test]
fn same_seed_same_decisions() {
    let mut a = SubsampleCandidates::new(50, 500);
    let mut b = SubsampleCandidates::new(50, 500);
    let xs: Vec<bool> = (0..5000).map(|_| a.keep()).collect();
    let ys: Vec<bool> = (0..5000).map(|_| b.keep()).collect();
    assert_eq!(xs, ys);
    let mut c = SubsampleCandidates::with_seed(50, 500, 11);
    let mut d = SubsampleCandidates::with_seed(50, 500, 11);
    for _ in 0..5000 {
        assert_eq!(c.keep(), d.keep());
    }
}

#[test]
fn keep_fraction_matches_probability() {
    let mut s = SubsampleCandidates::new(50, 500);
    let n = 100_000;
    let kept = (0..n).filter(|_| s.keep()).count();
    let fraction = kept as f64 / n as f64;
    assert!((fraction - 0.1).abs() <= 0.01, "fraction {}", fraction);
}

#[test]
fn default_seed_is_used_by_new() {
    let mut a = SubsampleCandidates::new(50, 500);
    let mut b = SubsampleCandidates::with_seed(50, 500, sample_window::DEFAULT_SEED);
    for _ in 0..2000 {
        assert_eq!(a.keep(), b.keep());
    }
}

#[test]
fn other_seed_gives_other_decisions() {
    let mut a = SubsampleCandidates::with_seed(50, 100, 1);
    let mut b = SubsampleCandidates::with_seed(50, 100, 2);
    let xs: Vec<bool> = (0..200).map(|_| a.keep()).collect();
    let ys: Vec<bool> = (0..200).map(|_| b.keep()).collect();
    assert_ne!(xs, ys);
}
