//! A phase-accumulator oscillator sequencer in exact integer arithmetic.
//!
//! A run steps through three independently cycling lists (frequencies,
//! waveform shapes, phase offsets) and emits one sample per tick of the
//! sample clock, moving to the next step when the phase completes a cycle
//! or, optionally, half a cycle. Frequencies are in millionths of a hertz
//! and offsets in millionths of a cycle, so that at sample rate `r` one
//! cycle is `r * 1_000_000` ticks and a frequency is its own per-sample
//! phase increment; the phase is then tracked without rounding.
use vstd::prelude::*;

pub mod laws;
pub mod pcm;
pub mod sequencer;
pub mod tokens;
pub mod waveform;

verus! {

} // verus!
