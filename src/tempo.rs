//! Conversion between a tempo in beats per minute and the length of one tick.
use vstd::prelude::*;

verus! {

/// Nanoseconds in one minute.
pub const NANOS_PER_MINUTE: u64 = 60_000_000_000;

/// The largest tempo for which a tick length converts back to the same tempo.
pub const MAX_EXACT_BPM: u64 = 100_000;

/// Length of one tick, in nanoseconds, at `bpm` beats per minute (rounded down).
pub open spec fn tick_nanos(bpm: int) -> int {
    NANOS_PER_MINUTE as int / bpm
}

/// Tempo of a tick that lasts `step` nanoseconds, rounded to the nearest whole
/// beat per minute, halves rounded up.
pub open spec fn rounded_bpm(step: int) -> int {
    (2 * NANOS_PER_MINUTE as int + step) / (2 * step)
}

/// The tick length at `bpm` beats per minute.
pub fn from_bpm(bpm: u32) -> (step: u64)
    requires
        bpm >= 1,
    ensures
        step == tick_nanos(bpm as int),
        step >= 1,
{
    assert(NANOS_PER_MINUTE / (bpm as u64) >= 1) by (nonlinear_arith)
        requires bpm >= 1, bpm <= u32::MAX;
    NANOS_PER_MINUTE / (bpm as u64)
}

/// The tempo, rounded to a whole number of beats per minute, of a tick that
/// lasts `step` nanoseconds.
pub fn bpm(step: u64) -> (r: u64)
    requires
        step >= 1,
    ensures
        r == rounded_bpm(step as int),
{
    let twice: u128 = 2 * (NANOS_PER_MINUTE as u128) + (step as u128);
    let q: u128 = twice / (2 * (step as u128));
    assert(q <= u64::MAX) by {
        let t = twice as int;
        let d = 2 * step as int;
        assert(q as int == t / d);
        assert(2 * (t / d) <= t) by (nonlinear_arith)
            requires t >= 0, d >= 2;
    }
    q as u64
}

/// Converting a tempo to a tick length and back gives the same tempo, for
/// every tempo from one up to one hundred thousand beats per minute.
pub proof fn lemma_bpm_round_trip(b: u32)
    requires
        1 <= b <= MAX_EXACT_BPM,
    ensures
        rounded_bpm(tick_nanos(b as int)) == b,
{
    let n = NANOS_PER_MINUTE as int;
    let bi = b as int;
    let s = tick_nanos(bi);
    let r = n % bi;
    assert(n == bi * s + r && 0 <= r < bi) by {
        vstd::arithmetic::div_mod::lemma_fundamental_div_mod(n, bi);
    }
    assert(s > 2 * bi) by (nonlinear_arith)
        requires n == bi * s + r, 0 <= r < bi, 1 <= bi <= 100_000, n == 60_000_000_000;
    assert((2 * n + s) == (2 * s) * bi + (2 * r + s)) by (nonlinear_arith)
        requires n == bi * s + r;
    assert(0 <= 2 * r + s < 2 * s);
    vstd::arithmetic::div_mod::lemma_fundamental_div_mod_converse(2 * n + s, 2 * s, bi, 2 * r + s);
}

} // verus!
