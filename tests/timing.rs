use tempo_trainer::tap::{measure_tap, TapDelta};
use tempo_trainer::tempo::{bpm, from_bpm, MAX_EXACT_BPM, NANOS_PER_MINUTE};

#[test]
fn tick_length_at_common_tempos() {
    assert_eq!(from_bpm(60), 1_000_000_000);
    assert_eq!(from_bpm(90), 666_666_666);
    assert_eq!(from_bpm(120), 500_000_000);
    assert_eq!(from_bpm(1), NANOS_PER_MINUTE);
    assert_eq!(from_bpm(u32::MAX), 13);
}

#[test]
fn tempo_of_tick_rounds_to_nearest() {
    assert_eq!(bpm(1_000_000_000), 60);
    assert_eq!(bpm(666_666_666), 90);
    assert_eq!(bpm(24_000_000_000), 3);
    assert_eq!(bpm(24_000_000_001), 2);
    assert_eq!(bpm(1), 2 * NANOS_PER_MINUTE / 2);
}

#[test]
fn tempo_round_trip() {
    for b in 1..=2000u32 {
        assert_eq!(bpm(from_bpm(b)), b as u64);
    }
    assert_eq!(bpm(from_bpm(MAX_EXACT_BPM as u32)), MAX_EXACT_BPM);
}

fn tap_at(now: u64) -> TapDelta {
    measure_tap(0, now, 1000, 4)
}

#[test]
fn tap_just_after_a_boundary() {
    let r = tap_at(260);
    assert_eq!(r.delta, 10);
    assert_eq!(r.division, 1);
    assert_eq!(r.elapsed, 260);
    assert_eq!(r.step, 1000);
}

#[test]
fn tap_just_before_a_boundary() {
    let r = tap_at(740);
    assert_eq!(r.delta, -10);
    assert_eq!(r.division, 3);
}

#[test]
fn tap_just_before_the_next_tick() {
    let r = tap_at(990);
    assert_eq!(r.delta, -10);
    assert_eq!(r.division, 0);
    assert_eq!(r.elapsed, 990);
}

#[test]
fn tap_on_the_tick() {
    let r = tap_at(0);
    assert_eq!(r.delta, 0);
    assert_eq!(r.division, 0);
}

#[test]
fn tap_after_the_next_tick_was_due() {
    let r = tap_at(1100);
    assert_eq!(r.delta, 100);
    assert_eq!(r.division, 0);
    assert_eq!(r.elapsed, 1100);
    let r = tap_at(1240);
    assert_eq!(r.delta, -10);
    assert_eq!(r.division, 1);
}

#[test]
fn tap_before_the_last_tick() {
    let r = measure_tap(500, 400, 1000, 4);
    assert_eq!(r.delta, 0);
    assert_eq!(r.division, 0);
    assert_eq!(r.elapsed, 0);
}

#[test]
fn tap_with_uneven_subdivision() {
    // 1000 cut in 3 gives sub-steps of 333, so the next tick lies 1 past the grid.
    let r = measure_tap(0, 340, 1000, 3);
    assert_eq!(r.delta, 7);
    assert_eq!(r.division, 1);
    let r = measure_tap(0, 660, 1000, 3);
    assert_eq!(r.delta, -6);
    assert_eq!(r.division, 2);
}

#[test]
fn tap_near_the_end_of_an_uneven_tick() {
    let r = measure_tap(0, 999, 1000, 3);
    assert_eq!(r.delta, 0);
    assert_eq!(r.division, 0);
    let r = measure_tap(0, 998, 1000, 3);
    assert_eq!(r.delta, -1);
    assert_eq!(r.division, 0);
    let r = measure_tap(0, 1000, 1000, 3);
    assert_eq!(r.delta, 1);
    assert_eq!(r.division, 0);
}

#[test]
fn tap_half_way_goes_to_the_later_point() {
    let r = tap_at(125);
    assert_eq!(r.delta, -125);
    assert_eq!(r.division, 1);
}

#[test]
fn tap_with_the_largest_offsets() {
    let r = measure_tap(0, u64::MAX, u64::MAX, 1);
    assert_eq!(r.delta, 0);
    assert_eq!(r.division, 0);
    let half = u64::MAX / 2;
    let r = measure_tap(0, half, u64::MAX, 1);
    assert_eq!(r.delta, half as i64);
    assert_eq!(r.division, 0);
}

#[test]
fn tap_at_real_tempo() {
    let step = from_bpm(120);
    let r = measure_tap(1_000_000_000, 1_000_000_000 + step - 12_000_000, step, 1);
    assert_eq!(r.delta, -12_000_000);
    assert_eq!(r.division, 0);
    let r = measure_tap(1_000_000_000, 1_000_000_000 + 5_000_000, step, 2);
    assert_eq!(r.delta, 5_000_000);
    assert_eq!(r.division, 0);
}

#[test]
fn tap_offsets_stay_within_half_a_subdivision() {
    for (step, division) in [(1000u64, 4u32), (1000, 3), (1000, 7), (997, 1)] {
        let sub = (step / division as u64) as i64;
        for now in 0..=2500u64 {
            let r = measure_tap(0, now, step, division);
            assert!(-sub <= 2 * r.delta && 2 * r.delta < sub);
            let point = r.elapsed as i64 - r.delta;
            assert_eq!(point % sub, 0);
            assert_eq!(r.division as i64, (point / sub) % division as i64);
            assert!((r.division as u32) < division);
        }
    }
}
