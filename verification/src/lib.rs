//! Small DSP primitives for real-time audio and synthesizer engines:
//! one-pole filters and smoothers, an ADSR envelope generator, and a
//! phase accumulator with free-running, tempo-synced and project-synced
//! advancement.
//!
//! All signal and parameter values are Q32.32 unsigned or signed
//! fixed-point numbers (see the `fixed` module), so every computation is
//! exact integer arithmetic and carries a proved contract.

use vstd::prelude::*;

pub mod filtering;
pub mod fixed;
pub mod modulation;

verus! {

/// Number of channels of a multi-channel audio frame.
pub const NUM_CHANNELS: usize = 4;

/// One frame of multi-channel audio: one Q32.32 sample per channel.
pub type AudioFrame = [i64; NUM_CHANNELS];

} // verus!
