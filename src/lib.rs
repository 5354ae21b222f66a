//! Timing logic of a metronome and tap-tempo trainer.
//!
//! Time is measured in whole nanoseconds. A tempo in beats per minute gives the
//! length of one tick; a tap is placed on the nearest point of the grid that cuts
//! each tick into equal parts, and the most recent offsets are kept for display.
pub mod controls;
pub mod history;
pub mod sounds;
pub mod tap;
pub mod tempo;
