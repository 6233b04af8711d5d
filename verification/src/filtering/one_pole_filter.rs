//! Single-channel one-pole smoother.
//!
//! The filter holds a pole coefficient `a`, its complement `b = 1 - a`
//! and the last output `z`; each `process` call moves `z` toward the
//! input by the difference equation `z' = input * b + z * a`.  Samples
//! are signed Q32.32 values, coefficients unsigned Q32.32 values in
//! `[0, FX_ONE]`.

use vstd::prelude::*;

use crate::filtering::{pole_for_tau, tau_to_pole_spec};
use crate::fixed::{fx_blend, fx_blend_spec, FX_ONE};

verus! {

/// The state of a smoother, as plain mathematical integers.
pub struct OnePoleView {
    pub a: int,
    pub b: int,
    pub z: int,
}

impl OnePoleView {
    /// The coefficient pair is consistent: `b` complements `a`.
    pub open spec fn wf(self) -> bool {
        &&& 0 <= self.a <= FX_ONE
        &&& self.b == FX_ONE - self.a
        &&& i64::MIN <= self.z <= i64::MAX
    }
}

/// One-pole smoother: pole coefficient, complement and last output.
#[derive(Debug, Clone)]
pub struct OnePole {
    a: u64,
    b: u64,
    z: i64,
}

impl View for OnePole {
    type V = OnePoleView;

    closed spec fn view(&self) -> OnePoleView {
        OnePoleView { a: self.a as int, b: self.b as int, z: self.z as int }
    }
}

impl OnePole {
    /// A smoother with pole coefficient `a` and a zeroed state.
    pub fn new(a: u64) -> (r: Self)
        requires
            a <= FX_ONE,
        ensures
            r@ == (OnePoleView { a: a as int, b: FX_ONE - a as int, z: 0 }),
            r@.wf(),
    {
        Self { a, b: FX_ONE - a, z: 0 }
    }

    /// Replaces the pole coefficient, keeping the state.
    pub fn update_pole(&mut self, a: u64)
        requires
            old(self)@.wf(),
            a <= FX_ONE,
        ensures
            final(self)@ == (OnePoleView { a: a as int, b: FX_ONE - a as int, ..old(self)@ }),
            final(self)@.wf(),
    {
        self.a = a;
        self.b = FX_ONE - a;
    }

    /// One filter step: returns and stores `input * b + z * a`, which
    /// lies between the previous state and the input.
    pub fn process(&mut self, input: i64) -> (r: i64)
        requires
            old(self)@.wf(),
        ensures
            r == fx_blend_spec(input as int, old(self)@.z, old(self)@.b),
            final(self)@ == (OnePoleView { z: r as int, ..old(self)@ }),
            final(self)@.wf(),
            old(self)@.z <= input ==> old(self)@.z <= r <= input,
            input <= old(self)@.z ==> input <= r <= old(self)@.z,
    {
        if self.z == input {
            proof {
                crate::fixed::lemma_blend_bounds(input as int, old(self)@.z, old(self)@.b);
            }
            return self.z;
        }
        self.z = fx_blend(input, self.z, self.b);
        self.z
    }

    /// Resets the state to the given value.
    pub fn reset(&mut self, input: i64)
        requires
            old(self)@.wf(),
        ensures
            final(self)@ == (OnePoleView { z: input as int, ..old(self)@ }),
            final(self)@.wf(),
    {
        self.z = input;
    }

    /// The pole coefficient for a time constant `tau` at the given
    /// sample rate: `e ^ (-1 / ((tau / 5) * sample_rate))`.
    pub fn tau_to_pole(tau: u64, sample_rate: u64) -> (r: u64)
        ensures
            r == tau_to_pole_spec(tau as int, sample_rate as int),
            r <= FX_ONE,
    {
        pole_for_tau(tau, sample_rate)
    }
}

} // verus!
