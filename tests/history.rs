use tempo_trainer::history::{TapDeltas, BINS};
use tempo_trainer::tap::TapDelta;

fn delta(d: i64) -> TapDelta {
    TapDelta { delta: d, division: 0, elapsed: 0, step: 1000 }
}

#[test]
fn new_history_is_empty() {
    let h = TapDeltas::new();
    assert_eq!(h.len(), 0);
    assert!(h.get(0).is_none());
    assert!(h.bin_bar(0).is_none());
    assert_eq!(h.mean_abs_delta(), None);
}

#[test]
fn newest_tap_comes_first() {
    let mut h = TapDeltas::new();
    h.record(delta(1));
    h.record(delta(2));
    assert_eq!(h.len(), 2);
    assert_eq!(h.get(0).unwrap().delta, 2);
    assert_eq!(h.get(1).unwrap().delta, 1);
    assert!(h.get(2).is_none());
}

#[test]
fn history_keeps_the_latest_bins() {
    let mut h = TapDeltas::new();
    for i in 0..20i64 {
        h.record(delta(i));
    }
    assert_eq!(h.len(), BINS);
    assert_eq!(h.get(0).unwrap().delta, 19);
    assert_eq!(h.get(BINS - 1).unwrap().delta, 4);
    assert!(h.get(BINS).is_none());
}

#[test]
fn mean_of_absolute_offsets() {
    let mut h = TapDeltas::new();
    h.record(delta(10));
    h.record(delta(-30));
    assert_eq!(h.mean_abs_delta(), Some(20));
    h.record(delta(-1));
    assert_eq!(h.mean_abs_delta(), Some(13));
}

#[test]
fn mean_of_extreme_offsets() {
    let mut h = TapDeltas::new();
    for _ in 0..BINS {
        h.record(delta(i64::MIN));
    }
    assert_eq!(h.mean_abs_delta(), Some(1u64 << 63));
}

#[test]
fn bars_show_size_and_side() {
    let mut h = TapDeltas::new();
    h.record(delta(-30));
    h.record(delta(0));
    h.record(delta(12));
    let b = h.bin_bar(0).unwrap();
    assert_eq!(b.magnitude, 12);
    assert!(b.late);
    let b = h.bin_bar(1).unwrap();
    assert_eq!(b.magnitude, 0);
    assert!(b.late);
    let b = h.bin_bar(2).unwrap();
    assert_eq!(b.magnitude, 30);
    assert!(!b.late);
    assert!(h.bin_bar(3).is_none());
}

#[test]
fn tap_measures_and_records() {
    let mut h = TapDeltas::new();
    h.tap(0, 740, 1000, 4);
    h.tap(0, 260, 1000, 4);
    assert_eq!(h.len(), 2);
    let newest = h.get(0).unwrap();
    assert_eq!(newest.delta, 10);
    assert_eq!(newest.division, 1);
    let older = h.get(1).unwrap();
    assert_eq!(older.delta, -10);
    assert_eq!(older.division, 3);
    assert_eq!(h.mean_abs_delta(), Some(10));
}
