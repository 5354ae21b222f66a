//! Placing a tap on the nearest point of the subdivision grid of the beat.
use vstd::prelude::*;
use vstd::arithmetic::div_mod::lemma_fundamental_div_mod;

verus! {

/// Where one tap landed relative to the beat.
#[derive(Clone, Copy, Debug)]
pub struct TapDelta {
    /// Signed distance in nanoseconds from the nearest point of the subdivision
    /// grid: zero or positive when the tap came at or after it, negative when
    /// before.
    pub delta: i64,
    /// Position within the tick of the grid point nearest to the tap, below the
    /// number of subdivisions; the next tick is position zero again.
    pub division: u64,
    /// Nanoseconds from the last tick to the tap.
    pub elapsed: u64,
    /// Length in nanoseconds of the tick in which the tap fell.
    pub step: u64,
}

/// Time from instant `from` to instant `to`, or zero when `to` is earlier.
pub open spec fn since(from: int, to: int) -> int {
    if to >= from { to - from } else { 0 }
}

/// Length of one subdivision when a tick of `step` is cut into `division` parts.
pub open spec fn sub_step(step: int, division: int) -> int {
    step / division
}

/// The whole number nearest to `x / u`, halves rounded up.
pub open spec fn nearest_multiple(x: int, u: int) -> int {
    (2 * x + u) / (2 * u)
}

/// The grid point nearest to a tap at `now`, as a count of sub-steps after the
/// tick that began at `last`. The grid goes on past the next tick, so a tap that
/// comes after the next tick was due is placed on the grid as well.
pub open spec fn nearest_point(last: int, now: int, step: int, division: int) -> int {
    nearest_multiple(since(last, now), sub_step(step, division))
}

/// The signed offset of a tap at `now` from its nearest grid point.
pub open spec fn nearest_delta(last: int, now: int, step: int, division: int) -> int {
    since(last, now) - sub_step(step, division) * nearest_point(last, now, step, division)
}

/// The position within the tick of the grid point that a tap at `now` is
/// placed on; the next tick counts as position zero again.
pub open spec fn nearest_division(last: int, now: int, step: int, division: int) -> int {
    nearest_point(last, now, step, division) % division
}

/// What `measure_tap` accepts: a tick of at least one nanosecond per
/// subdivision.
pub open spec fn valid_tap_inputs(step: int, division: int) -> bool {
    1 <= division <= step
}

/// Measures a tap at instant `now` against the tick that began at `last` and
/// lasts `step`, cut into `division` equal parts (the sub-step rounded down).
pub fn measure_tap(last: u64, now: u64, step: u64, division: u32) -> (r: TapDelta)
    requires
        valid_tap_inputs(step as int, division as int),
    ensures
        r.delta == nearest_delta(last as int, now as int, step as int, division as int),
        r.division == nearest_division(last as int, now as int, step as int, division as int),
        r.elapsed == since(last as int, now as int),
        r.step == step,
{
    let d: u64 = division as u64;
    assert(step / d >= 1) by (nonlinear_arith)
        requires 1 <= d <= step;
    let elapsed: u64 = if now >= last { now - last } else { 0 };
    let sub: u64 = step / d;
    let k: u128 = (2 * (elapsed as u128) + (sub as u128)) / (2 * (sub as u128));
    let ghost x = elapsed as int;
    let ghost u = sub as int;
    proof {
        lemma_nearest_multiple(x, u);
    }
    let ghost kk = k as int;
    assert(kk == nearest_multiple(x, u));
    assert(2 * u * kk <= 2 * x + u) by (nonlinear_arith)
        requires -u <= 2 * (x - u * kk);
    assert(2 * x + u <= (2 * x + 1) * u) by (nonlinear_arith)
        requires x >= 0, u >= 1;
    assert(kk <= x) by (nonlinear_arith)
        requires 2 * u * kk <= (2 * x + 1) * u, u >= 1, kk >= 0, x >= 0;
    assert(u * kk <= x + u) by (nonlinear_arith)
        requires 2 * u * kk <= 2 * x + u, u >= 1;
    let point: u128 = (sub as u128) * k;
    let delta: i64 = if point <= elapsed as u128 {
        (elapsed as u128 - point) as i64
    } else {
        -((point - elapsed as u128) as i64)
    };
    let index: u64 = (k as u64) % d;
    TapDelta { delta, division: index, elapsed, step }
}

/// The nearest multiple lies within half a step of `x`, halves going up.
proof fn lemma_nearest_multiple(x: int, u: int)
    requires
        x >= 0,
        u >= 1,
    ensures
        nearest_multiple(x, u) >= 0,
        -u <= 2 * (x - u * nearest_multiple(x, u)) < u,
{
    let k = nearest_multiple(x, u);
    let r = (2 * x + u) % (2 * u);
    lemma_fundamental_div_mod(2 * x + u, 2 * u);
    assert(2 * x + u == (2 * u) * k + r && 0 <= r < 2 * u);
    assert(2 * (x - u * k) == r - u) by (nonlinear_arith)
        requires 2 * x + u == (2 * u) * k + r;
    assert(k >= 0) by (nonlinear_arith)
        requires 2 * x + u == (2 * u) * k + r, r < 2 * u, x >= 0, u >= 1;
}

/// Every tap is placed on its nearest point of the subdivision grid: no grid
/// point is closer, the offset is at most half a sub-step (a tap exactly half
/// way goes to the later point), and the index is that point's position within
/// its tick, below the division count.
pub proof fn lemma_tap_nearest(last: u64, now: u64, step: u64, division: u32)
    requires
        valid_tap_inputs(step as int, division as int),
    ensures
        ({
            let (l, n, s, d) = (last as int, now as int, step as int, division as int);
            let u = sub_step(s, d);
            let k = nearest_point(l, n, s, d);
            let delta = nearest_delta(l, n, s, d);
            &&& k >= 0
            &&& since(l, n) - delta == u * k
            &&& -u <= 2 * delta < u
            &&& forall|j: int| #![trigger u * j]
                    delta * delta <= (since(l, n) - u * j) * (since(l, n) - u * j)
            &&& 0 <= nearest_division(l, n, s, d) < d
            &&& nearest_division(l, n, s, d) == k % d
        }),
{
    let (l, n, s, d) = (last as int, now as int, step as int, division as int);
    let u = sub_step(s, d);
    assert(u >= 1) by (nonlinear_arith)
        requires u == s / d, 1 <= d <= s;
    let x = since(l, n);
    let k = nearest_point(l, n, s, d);
    let e = nearest_delta(l, n, s, d);
    lemma_nearest_multiple(x, u);
    assert forall|j: int| #![trigger u * j] e * e <= (x - u * j) * (x - u * j) by {
        let m = k - j;
        assert(x - u * j == e + u * m) by (nonlinear_arith)
            requires e == x - u * k, m == k - j;
        if m >= 1 {
            assert(u * m >= u) by (nonlinear_arith)
                requires m >= 1, u >= 1;
            assert(e * e <= (e + u * m) * (e + u * m)) by (nonlinear_arith)
                requires u * m >= u, -u <= 2 * e < u;
        } else if m <= -1 {
            assert(u * m <= -u) by (nonlinear_arith)
                requires m <= -1, u >= 1;
            assert(e * e <= (e + u * m) * (e + u * m)) by (nonlinear_arith)
                requires u * m <= -u, -u <= 2 * e < u;
        } else {
            assert(u * m == 0) by (nonlinear_arith)
                requires m == 0;
        }
    }
}

} // verus!
