//! The bounded history of recent taps, newest first.
use std::collections::VecDeque;
use vstd::prelude::*;
use crate::tap::{measure_tap, nearest_delta, nearest_division, since, valid_tap_inputs, TapDelta};

verus! {

/// How many taps the history keeps.
pub const BINS: usize = 16;

/// Absolute value of an offset.
pub open spec fn abs_delta(d: TapDelta) -> int {
    if d.delta >= 0 { d.delta as int } else { -(d.delta as int) }
}

/// Sum of the absolute offsets of a sequence of taps.
pub open spec fn sum_abs(s: Seq<TapDelta>) -> int
    decreases s.len(),
{
    if s.len() == 0 {
        0
    } else {
        sum_abs(s.drop_last()) + abs_delta(s.last())
    }
}

/// The history `s` after a new tap `d`: `d` in front, the oldest dropped when
/// the history was full.
pub open spec fn pushed(s: Seq<TapDelta>, d: TapDelta) -> Seq<TapDelta> {
    if s.len() < BINS {
        seq![d] + s
    } else {
        seq![d] + s.take(BINS - 1)
    }
}

/// How a bar of the accuracy chart shows one tap.
#[derive(Clone, Copy, Debug)]
pub struct Bar {
    /// Size of the offset in nanoseconds.
    pub magnitude: u64,
    /// Whether the tap came at or after its grid point (drawn above the axis).
    pub late: bool,
}

/// The most recent taps, newest first, at most `BINS` of them.
pub struct TapDeltas {
    deltas: VecDeque<TapDelta>,
}

impl View for TapDeltas {
    type V = Seq<TapDelta>;

    closed spec fn view(&self) -> Seq<TapDelta> {
        self.deltas@
    }
}

impl TapDeltas {
    /// The history holds no more than `BINS` taps.
    pub open spec fn wf(&self) -> bool {
        self@.len() <= BINS
    }

    /// An empty history.
    pub fn new() -> (r: TapDeltas)
        ensures
            r.wf(),
            r@ == Seq::<TapDelta>::empty(),
    {
        TapDeltas { deltas: VecDeque::new() }
    }

    /// Number of taps held.
    pub fn len(&self) -> (r: usize)
        ensures
            r == self@.len(),
    {
        self.deltas.len()
    }

    /// Adds a tap in front, dropping the oldest ones beyond `BINS`.
    pub fn record(&mut self, d: TapDelta)
        requires
            old(self).wf(),
        ensures
            final(self).wf(),
            final(self)@ == pushed(old(self)@, d),
    {
        let ghost all = seq![d] + self.deltas@;
        self.deltas.push_front(d);
        while self.deltas.len() > BINS
            invariant
                self.deltas@ == all.take(self.deltas@.len() as int),
                self.deltas@.len() <= all.len(),
                self.deltas@.len() == all.len() || self.deltas@.len() >= BINS,
                all.len() <= BINS + 1,
            decreases self.deltas@.len(),
        {
            self.deltas.pop_back();
        }
        proof {
            if old(self)@.len() < BINS {
                assert(self.deltas@ =~= all);
            } else {
                assert(self.deltas@ =~= seq![d] + old(self)@.take(BINS - 1));
            }
        }
    }

    /// Measures a tap at instant `now` against the tick that began at `last`
    /// and lasts `step`, cut into `division` parts, and records it.
    pub fn tap(&mut self, last: u64, now: u64, step: u64, division: u32)
        requires
            old(self).wf(),
            valid_tap_inputs(step as int, division as int),
        ensures
            final(self).wf(),
            final(self)@.len() >= 1,
            final(self)@ == pushed(old(self)@, final(self)@[0]),
            final(self)@[0].delta == nearest_delta(last as int, now as int, step as int, division as int),
            final(self)@[0].division == nearest_division(last as int, now as int, step as int, division as int),
            final(self)@[0].elapsed == since(last as int, now as int),
            final(self)@[0].step == step,
    {
        let d = measure_tap(last, now, step, division);
        self.record(d);
    }

    /// The tap at position `i`, newest first.
    pub fn get(&self, i: usize) -> (r: Option<TapDelta>)
        ensures
            i < self@.len() ==> r == Some(self@[i as int]),
            i >= self@.len() ==> r is None,
    {
        if i < self.deltas.len() {
            Some(self.deltas[i])
        } else {
            None
        }
    }

    /// The bar that shows the tap at position `i`, if there is one.
    pub fn bin_bar(&self, i: usize) -> (r: Option<Bar>)
        ensures
            i < self@.len() ==> r == Some(Bar {
                magnitude: abs_delta(self@[i as int]) as u64,
                late: self@[i as int].delta >= 0,
            }),
            i >= self@.len() ==> r is None,
    {
        match self.get(i) {
            Some(d) => Some(Bar { magnitude: abs_of(d.delta), late: d.delta >= 0 }),
            None => None,
        }
    }

    /// Mean size of the offsets held, rounded down; `None` when the history is
    /// empty.
    pub fn mean_abs_delta(&self) -> (r: Option<u64>)
        requires
            self.wf(),
        ensures
            self@.len() == 0 ==> r is None,
            self@.len() > 0 ==> r == Some((sum_abs(self@) / (self@.len() as int)) as u64),
    {
        let n: usize = self.deltas.len();
        if n == 0 {
            return None;
        }
        let mut total: u128 = 0;
        let mut i: usize = 0;
        while i < n
            invariant
                n == self@.len(),
                n <= BINS,
                i <= n,
                total == sum_abs(self@.take(i as int)),
                total <= i * 0x8000_0000_0000_0000,
            decreases n - i,
        {
            let d = self.deltas[i];
            proof {
                assert(self@.take(i + 1).drop_last() =~= self@.take(i as int));
            }
            total = total + abs_of(d.delta) as u128;
            i = i + 1;
        }
        proof {
            assert(self@.take(n as int) =~= self@);
        }
        let mean: u128 = total / (n as u128);
        assert(mean <= 0x8000_0000_0000_0000) by (nonlinear_arith)
            requires mean == total / (n as u128), total <= n * 0x8000_0000_0000_0000, n >= 1;
        Some(mean as u64)
    }
}

/// The size of an offset.
fn abs_of(x: i64) -> (r: u64)
    ensures
        r == (if x >= 0 { x as int } else { -(x as int) }),
        r <= 0x8000_0000_0000_0000,
{
    if x >= 0 {
        x as u64
    } else {
        (-(x as i128)) as u64
    }
}

} // verus!
