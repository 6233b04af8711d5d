//! One-pole filters and smoothers.

use vstd::prelude::*;

pub mod one_pole;
pub mod one_pole_filter;
pub mod one_pole_simple;

use crate::fixed::{exp2_neg, exp2_neg_spec, fx_div, fx_div_spec, fx_mul, fx_mul_spec, FX_ONE};

verus! {

/// `log2(e)` in Q32.32, used to turn a natural-exponential time constant
/// into a base-two exponent.
pub const FX_LOG2E: u64 = 6196328019;

/// Five in Q32.32: a smoother's time constant is reckoned as five pole
/// time constants.
pub const FX_FIVE: u64 = 21474836480;

/// The pole coefficient for a time constant `tau` (seconds) at a sample
/// rate (Hz), both Q32.32: `e ^ (-5 / (tau * sample_rate))`, computed as
/// `2 ^ (-(5 / (tau * sample_rate)) * log2(e))`.  A product so small
/// that it underflows to zero gives a pole of zero, the limit of the
/// formula.
pub open spec fn tau_to_pole_spec(tau: int, sample_rate: int) -> int {
    let prod = fx_mul_spec(tau, sample_rate);
    if prod == 0 {
        0
    } else {
        exp2_neg_spec(fx_mul_spec(fx_div_spec(FX_FIVE as int, prod), FX_LOG2E as int))
    }
}

/// Computes the pole coefficient for a time constant, exactly as
/// `tau_to_pole_spec` states.  The result is a coefficient in
/// `[0, FX_ONE]`.
pub fn pole_for_tau(tau: u64, sample_rate: u64) -> (r: u64)
    ensures
        r == tau_to_pole_spec(tau as int, sample_rate as int),
        r <= FX_ONE,
{
    let prod = fx_mul(tau, sample_rate);
    if prod == 0 {
        0
    } else {
        exp2_neg(fx_mul(fx_div(FX_FIVE, prod), FX_LOG2E))
    }
}

} // verus!
