//! The trainer's settings and the controls that change them.
use vstd::prelude::*;
use crate::tempo::{from_bpm, tick_nanos};

verus! {

/// The tempo the trainer starts at.
pub const START_BPM: u32 = 90;

/// An on-screen control; the keyboard reaches the same actions.
#[derive(Clone, Copy, Debug, PartialEq, Eq, Structural)]
pub enum ButtonKind {
    BpmUp1,
    BpmDown1,
    BpmUp10,
    BpmDown10,
    DivisionUp1,
    DivisionDown1,
    TapMute,
    TickMute,
    HideClock,
    HideBarChart,
}

/// The caption shown on a control.
pub open spec fn label_of(kind: ButtonKind) -> Seq<char> {
    match kind {
        ButtonKind::BpmUp1 => "BPM+1"@,
        ButtonKind::BpmDown1 => "BPM-1"@,
        ButtonKind::BpmUp10 => "BPM+10"@,
        ButtonKind::BpmDown10 => "BPM-10"@,
        ButtonKind::DivisionUp1 => "Div+"@,
        ButtonKind::DivisionDown1 => "Div-"@,
        ButtonKind::TapMute => "Tap Mute"@,
        ButtonKind::TickMute => "Tick Mute"@,
        ButtonKind::HideClock => "Clock"@,
        ButtonKind::HideBarChart => "Chart"@,
    }
}

impl ButtonKind {
    /// The caption shown on this control.
    pub fn label(&self) -> (r: &'static str)
        ensures
            r@ == label_of(*self),
    {
        match self {
            ButtonKind::BpmUp1 => "BPM+1",
            ButtonKind::BpmDown1 => "BPM-1",
            ButtonKind::BpmUp10 => "BPM+10",
            ButtonKind::BpmDown10 => "BPM-10",
            ButtonKind::DivisionUp1 => "Div+",
            ButtonKind::DivisionDown1 => "Div-",
            ButtonKind::TapMute => "Tap Mute",
            ButtonKind::TickMute => "Tick Mute",
            ButtonKind::HideClock => "Clock",
            ButtonKind::HideBarChart => "Chart",
        }
    }
}

/// Everything the player can change.
#[derive(Clone, Copy, Debug, PartialEq, Eq, Structural)]
pub struct Settings {
    /// Tempo in beats per minute.
    pub bpm: u32,
    /// Number of equal parts a tick is cut into.
    pub division: u32,
    /// Whether the metronome's tick is silent.
    pub tick_mute: bool,
    /// Whether the sound of a tap is silent.
    pub tap_mute: bool,
    /// Whether the clock face is hidden.
    pub hide_clock: bool,
    /// Whether the accuracy chart is hidden.
    pub hide_bar_chart: bool,
}

/// `x + n`, or the largest `u32` when that does not fit.
pub open spec fn raised(x: u32, n: u32) -> u32 {
    if x as int + n as int <= u32::MAX { (x + n) as u32 } else { u32::MAX }
}

/// `x - 1`, unless `x` is already one.
pub open spec fn lowered_by_one(x: u32) -> u32 {
    if x > 1 { (x - 1) as u32 } else { x }
}

/// `x - 10`, or one when that would not stay above zero.
pub open spec fn lowered_by_ten(x: u32) -> u32 {
    if x > 10 { (x - 10) as u32 } else { 1 }
}

/// The settings after pressing `kind`.
pub open spec fn applied(s: Settings, kind: ButtonKind) -> Settings {
    match kind {
        ButtonKind::BpmUp1 => Settings { bpm: raised(s.bpm, 1), ..s },
        ButtonKind::BpmDown1 => Settings { bpm: lowered_by_one(s.bpm), ..s },
        ButtonKind::BpmUp10 => Settings { bpm: raised(s.bpm, 10), ..s },
        ButtonKind::BpmDown10 => Settings { bpm: lowered_by_ten(s.bpm), ..s },
        ButtonKind::DivisionUp1 => Settings { division: raised(s.division, 1), ..s },
        ButtonKind::DivisionDown1 => Settings { division: lowered_by_one(s.division), ..s },
        ButtonKind::TapMute => Settings { tap_mute: !s.tap_mute, ..s },
        ButtonKind::TickMute => Settings { tick_mute: !s.tick_mute, ..s },
        ButtonKind::HideClock => Settings { hide_clock: !s.hide_clock, ..s },
        ButtonKind::HideBarChart => Settings { hide_bar_chart: !s.hide_bar_chart, ..s },
    }
}

impl Settings {
    /// Tempo and division are at least one.
    pub open spec fn wf(&self) -> bool {
        self.bpm >= 1 && self.division >= 1
    }

    /// The settings the trainer starts with: ninety beats per minute, whole
    /// ticks, sound on, everything shown.
    pub fn new() -> (r: Settings)
        ensures
            r.wf(),
            r == (Settings {
                bpm: START_BPM,
                division: 1,
                tick_mute: false,
                tap_mute: false,
                hide_clock: false,
                hide_bar_chart: false,
            }),
    {
        Settings {
            bpm: START_BPM,
            division: 1,
            tick_mute: false,
            tap_mute: false,
            hide_clock: false,
            hide_bar_chart: false,
        }
    }

    /// Length of one tick in nanoseconds.
    pub fn step(&self) -> (r: u64)
        requires
            self.wf(),
        ensures
            r == tick_nanos(self.bpm as int),
            r >= 1,
    {
        from_bpm(self.bpm)
    }

    /// Carries out the action of control `kind`.
    pub fn apply(&mut self, kind: ButtonKind)
        requires
            old(self).wf(),
        ensures
            final(self).wf(),
            *final(self) == applied(*old(self), kind),
    {
        match kind {
            ButtonKind::BpmUp1 => {
                self.bpm = self.bpm.saturating_add(1);
            },
            ButtonKind::BpmDown1 => {
                if self.bpm > 1 {
                    self.bpm = self.bpm - 1;
                }
            },
            ButtonKind::BpmUp10 => {
                self.bpm = self.bpm.saturating_add(10);
            },
            ButtonKind::BpmDown10 => {
                self.bpm = if self.bpm > 10 { self.bpm - 10 } else { 1 };
            },
            ButtonKind::DivisionUp1 => {
                self.division = self.division.saturating_add(1);
            },
            ButtonKind::DivisionDown1 => {
                if self.division > 1 {
                    self.division = self.division - 1;
                }
            },
            ButtonKind::TapMute => {
                self.tap_mute = !self.tap_mute;
            },
            ButtonKind::TickMute => {
                self.tick_mute = !self.tick_mute;
            },
            ButtonKind::HideClock => {
                self.hide_clock = !self.hide_clock;
            },
            ButtonKind::HideBarChart => {
                self.hide_bar_chart = !self.hide_bar_chart;
            },
        }
    }
}

/// Each on/off control undoes itself when pressed twice, and a step of the
/// tempo or the division by one is undone by the opposite step, away from
/// the ends of their ranges.
pub proof fn lemma_controls_undo(s: Settings)
    requires
        s.wf(),
    ensures
        applied(applied(s, ButtonKind::TapMute), ButtonKind::TapMute) == s,
        applied(applied(s, ButtonKind::TickMute), ButtonKind::TickMute) == s,
        applied(applied(s, ButtonKind::HideClock), ButtonKind::HideClock) == s,
        applied(applied(s, ButtonKind::HideBarChart), ButtonKind::HideBarChart) == s,
        s.bpm < u32::MAX ==> applied(applied(s, ButtonKind::BpmUp1), ButtonKind::BpmDown1) == s,
        s.bpm > 1 ==> applied(applied(s, ButtonKind::BpmDown1), ButtonKind::BpmUp1) == s,
        s.division < u32::MAX ==> applied(applied(s, ButtonKind::DivisionUp1), ButtonKind::DivisionDown1) == s,
        s.division > 1 ==> applied(applied(s, ButtonKind::DivisionDown1), ButtonKind::DivisionUp1) == s,
{
}

} // verus!
