//! Control logic of a touch-ribbon and MIDI pitch controller.
//!
//! Values are carried in fixed point: a level of [`hw::LEVEL_ONE`] stands for 1.0
//! (the full scale of a normalized converter value, and one volt in 1 V/octave
//! terms), so that one semitone, 1/12 of a volt, is exactly [`hw::SEMITONE`].

pub mod control;
pub mod fusion;
pub mod hw;
