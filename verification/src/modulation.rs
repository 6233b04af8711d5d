//! Modulation sources: envelope generator and phase accumulator.

pub mod adsr;
pub mod phase;
