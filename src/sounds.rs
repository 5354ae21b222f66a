//! Which of the loaded sounds plays for the tick and which for a tap.
use vstd::prelude::*;
use vstd::arithmetic::div_mod::lemma_fundamental_div_mod_converse;

verus! {

/// A control that steps one of the two sound choices.
#[derive(Clone, Copy, Debug, PartialEq, Eq, Structural)]
pub enum IndexButton {
    TickIncrement,
    TickDecrement,
    TapIncrement,
    TapDecrement,
}

/// The index after `i` among `n` sounds, wrapping to the first.
pub open spec fn next_index(i: int, n: int) -> int {
    (i + 1) % n
}

/// The index before `i` among `n` sounds, wrapping to the last.
pub open spec fn prev_index(i: int, n: int) -> int {
    (i + n - 1) % n
}

/// The chosen sounds, as indices into a list of `count` sounds.
#[derive(Clone, Copy, Debug, PartialEq, Eq, Structural)]
pub struct SoundChoice {
    /// Number of sounds to choose from.
    pub count: usize,
    /// The sound of the metronome's tick.
    pub tick: usize,
    /// The sound of a tap.
    pub tap: usize,
}

/// The choice after pressing `b`.
pub open spec fn stepped(c: SoundChoice, b: IndexButton) -> SoundChoice {
    let n = c.count as int;
    match b {
        IndexButton::TickIncrement => SoundChoice { tick: next_index(c.tick as int, n) as usize, ..c },
        IndexButton::TickDecrement => SoundChoice { tick: prev_index(c.tick as int, n) as usize, ..c },
        IndexButton::TapIncrement => SoundChoice { tap: next_index(c.tap as int, n) as usize, ..c },
        IndexButton::TapDecrement => SoundChoice { tap: prev_index(c.tap as int, n) as usize, ..c },
    }
}

impl SoundChoice {
    /// Both choices point at one of the sounds.
    pub open spec fn wf(&self) -> bool {
        self.tick < self.count && self.tap < self.count
    }

    /// A choice among `count` sounds.
    pub fn new(count: usize, tick: usize, tap: usize) -> (r: SoundChoice)
        requires
            tick < count,
            tap < count,
        ensures
            r.wf(),
            r == (SoundChoice { count, tick, tap }),
    {
        SoundChoice { count, tick, tap }
    }

    /// Carries out the action of control `b`.
    pub fn step(&mut self, b: IndexButton)
        requires
            old(self).wf(),
        ensures
            final(self).wf(),
            *final(self) == stepped(*old(self), b),
    {
        let n = self.count;
        match b {
            IndexButton::TickIncrement => {
                self.tick = (self.tick + 1) % n;
            },
            IndexButton::TickDecrement => {
                proof {
                    lemma_prev_index(self.tick as int, n as int);
                }
                self.tick = if self.tick == 0 { n - 1 } else { self.tick - 1 };
            },
            IndexButton::TapIncrement => {
                self.tap = (self.tap + 1) % n;
            },
            IndexButton::TapDecrement => {
                proof {
                    lemma_prev_index(self.tap as int, n as int);
                }
                self.tap = if self.tap == 0 { n - 1 } else { self.tap - 1 };
            },
        }
    }
}

/// Stepping a choice forward and then back, or back and then forward, leaves
/// it as it was.
pub proof fn lemma_step_inverse(c: SoundChoice)
    requires
        c.wf(),
    ensures
        stepped(stepped(c, IndexButton::TickIncrement), IndexButton::TickDecrement) == c,
        stepped(stepped(c, IndexButton::TickDecrement), IndexButton::TickIncrement) == c,
        stepped(stepped(c, IndexButton::TapIncrement), IndexButton::TapDecrement) == c,
        stepped(stepped(c, IndexButton::TapDecrement), IndexButton::TapIncrement) == c,
{
    lemma_index_inverse(c.tick as int, c.count as int);
    lemma_index_inverse(c.tap as int, c.count as int);
}

proof fn lemma_prev_index(i: int, n: int)
    requires
        0 <= i < n,
    ensures
        prev_index(i, n) == (if i == 0 { n - 1 } else { i - 1 }),
{
    if i >= 1 {
        lemma_fundamental_div_mod_converse(i + n - 1, n, 1, i - 1);
    } else {
        lemma_fundamental_div_mod_converse(n - 1, n, 0, n - 1);
    }
}

proof fn lemma_index_inverse(i: int, n: int)
    requires
        0 <= i < n,
    ensures
        prev_index(next_index(i, n), n) == i,
        next_index(prev_index(i, n), n) == i,
{
    if i + 1 < n {
        lemma_fundamental_div_mod_converse(i + 1, n, 0, i + 1);
        lemma_fundamental_div_mod_converse(i + n, n, 1, i);
    } else {
        lemma_fundamental_div_mod_converse(i + 1, n, 1, 0);
        lemma_fundamental_div_mod_converse(n - 1, n, 0, n - 1);
    }
    if i >= 1 {
        lemma_fundamental_div_mod_converse(i + n - 1, n, 1, i - 1);
        lemma_fundamental_div_mod_converse(i, n, 0, i);
    } else {
        lemma_fundamental_div_mod_converse(n - 1, n, 0, n - 1);
        lemma_fundamental_div_mod_converse(n, n, 1, 0);
    }
}

} // verus!
