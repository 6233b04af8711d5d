//! One-pole smoothers: a single-channel variant and a multi-channel
//! variant that smooths a whole audio frame in place.
//!
//! Both hold a pole coefficient `a`, its complement `b = 1 - a` and the
//! last output per channel, and apply the difference equation
//! `z' = input * b + z * a`.

use vstd::prelude::*;

use crate::filtering::{pole_for_tau, tau_to_pole_spec};
use crate::fixed::{fx_blend, fx_blend_spec, FX_ONE};
use crate::AudioFrame;

verus! {

/// The state of a single-channel smoother, as plain integers.
pub struct OnePoleSimpleView {
    pub a: int,
    pub b: int,
    pub z: int,
}

impl OnePoleSimpleView {
    /// The coefficient pair is consistent: `b` complements `a`.
    pub open spec fn wf(self) -> bool {
        &&& 0 <= self.a <= FX_ONE
        &&& self.b == FX_ONE - self.a
        &&& i64::MIN <= self.z <= i64::MAX
    }
}

/// Single-channel one-pole smoother.
#[derive(Debug, Clone)]
pub struct OnePoleSimple {
    a: u64,
    b: u64,
    z: i64,
}

impl View for OnePoleSimple {
    type V = OnePoleSimpleView;

    closed spec fn view(&self) -> OnePoleSimpleView {
        OnePoleSimpleView { a: self.a as int, b: self.b as int, z: self.z as int }
    }
}

impl OnePoleSimple {
    /// A smoother with pole coefficient `a` and a zeroed state.
    pub fn new(a: u64) -> (r: Self)
        requires
            a <= FX_ONE,
        ensures
            r@ == (OnePoleSimpleView { a: a as int, b: FX_ONE - a as int, z: 0 }),
            r@.wf(),
    {
        Self { a, b: FX_ONE - a, z: 0 }
    }

    /// Replaces the pole coefficient, keeping the state.
    pub fn set_pole(&mut self, a: u64)
        requires
            old(self)@.wf(),
            a <= FX_ONE,
        ensures
            final(self)@ == (OnePoleSimpleView {
                a: a as int,
                b: FX_ONE - a as int,
                ..old(self)@
            }),
            final(self)@.wf(),
    {
        self.a = a;
        self.b = FX_ONE - a;
    }

    /// Sets the pole from a time constant `tau` at the given sample
    /// rate.
    pub fn set_tau(&mut self, tau: u64, sample_rate: u64)
        requires
            old(self)@.wf(),
        ensures
            final(self)@ == (OnePoleSimpleView {
                a: tau_to_pole_spec(tau as int, sample_rate as int),
                b: FX_ONE - tau_to_pole_spec(tau as int, sample_rate as int),
                ..old(self)@
            }),
            final(self)@.wf(),
    {
        self.set_pole(Self::tau_to_pole(tau, sample_rate));
    }

    /// One filter step: returns and stores `input * b + z * a`, which
    /// lies between the previous state and the input.
    pub fn process(&mut self, input: i64) -> (r: i64)
        requires
            old(self)@.wf(),
        ensures
            r == fx_blend_spec(input as int, old(self)@.z, old(self)@.b),
            final(self)@ == (OnePoleSimpleView { z: r as int, ..old(self)@ }),
            final(self)@.wf(),
            old(self)@.z <= input ==> old(self)@.z <= r <= input,
            input <= old(self)@.z ==> input <= r <= old(self)@.z,
    {
        if self.z == input {
            proof {
                crate::fixed::lemma_blend_bounds(input as int, old(self)@.z, old(self)@.b);
            }
            return self.z;
        }
        self.z = fx_blend(input, self.z, self.b);
        self.z
    }

    /// Resets the state to the given value.
    pub fn reset(&mut self, input: i64)
        requires
            old(self)@.wf(),
        ensures
            final(self)@ == (OnePoleSimpleView { z: input as int, ..old(self)@ }),
            final(self)@.wf(),
    {
        self.z = input;
    }

    /// The pole coefficient for a time constant `tau` at the given
    /// sample rate: `e ^ (-1 / ((tau / 5) * sample_rate))`.
    pub fn tau_to_pole(tau: u64, sample_rate: u64) -> (r: u64)
        ensures
            r == tau_to_pole_spec(tau as int, sample_rate as int),
            r <= FX_ONE,
    {
        pole_for_tau(tau, sample_rate)
    }
}

/// The state of a multi-channel smoother, as plain integers.
pub struct OnePoleSimpleMultiView {
    pub a: int,
    pub b: int,
    pub z: Seq<i64>,
}

impl OnePoleSimpleMultiView {
    /// The coefficient pair is consistent and there is one state value
    /// per channel.
    pub open spec fn wf(self) -> bool {
        &&& 0 <= self.a <= FX_ONE
        &&& self.b == FX_ONE - self.a
        &&& self.z.len() == 4
    }
}

/// Multi-channel one-pole smoother: one state value per channel of an
/// `AudioFrame`, a shared coefficient pair.
#[derive(Debug, Clone)]
pub struct OnePoleSimpleMulti {
    a: u64,
    b: u64,
    z: AudioFrame,
}

impl View for OnePoleSimpleMulti {
    type V = OnePoleSimpleMultiView;

    closed spec fn view(&self) -> OnePoleSimpleMultiView {
        OnePoleSimpleMultiView { a: self.a as int, b: self.b as int, z: self.z@ }
    }
}

impl OnePoleSimpleMulti {
    /// A smoother with pole coefficient `a` and zeroed states.
    pub fn new(a: u64) -> (r: Self)
        requires
            a <= FX_ONE,
        ensures
            r@.a == a as int,
            r@.b == FX_ONE - a as int,
            r@.z =~= seq![0i64, 0i64, 0i64, 0i64],
            r@.wf(),
    {
        Self { a, b: FX_ONE - a, z: [0i64, 0i64, 0i64, 0i64] }
    }

    /// Replaces the pole coefficient, keeping the states.
    pub fn set_pole(&mut self, a: u64)
        requires
            old(self)@.wf(),
            a <= FX_ONE,
        ensures
            final(self)@ == (OnePoleSimpleMultiView {
                a: a as int,
                b: FX_ONE - a as int,
                ..old(self)@
            }),
            final(self)@.wf(),
    {
        self.a = a;
        self.b = FX_ONE - a;
    }

    /// Sets the pole from a time constant `tau` at the given sample
    /// rate.
    pub fn set_tau(&mut self, tau: u64, sample_rate: u64)
        requires
            old(self)@.wf(),
        ensures
            final(self)@ == (OnePoleSimpleMultiView {
                a: tau_to_pole_spec(tau as int, sample_rate as int),
                b: FX_ONE - tau_to_pole_spec(tau as int, sample_rate as int),
                ..old(self)@
            }),
            final(self)@.wf(),
    {
        self.set_pole(OnePoleSimple::tau_to_pole(tau, sample_rate));
    }

    /// One filter step per channel, in place: every channel of the
    /// frame is moved toward its input by the difference equation.
    pub fn process(&mut self, outputs: &mut AudioFrame)
        requires
            old(self)@.wf(),
        ensures
            final(self)@.a == old(self)@.a,
            final(self)@.b == old(self)@.b,
            final(self)@.wf(),
            forall|i: int|
                0 <= i < 4 ==> final(outputs)@[i] == fx_blend_spec(
                    old(outputs)@[i] as int,
                    old(self)@.z[i] as int,
                    old(self)@.b,
                ),
            final(self)@.z =~= final(outputs)@,
    {
        let x0 = outputs[0];
        let v0 = fx_blend(x0, self.z[0], self.b);
        outputs[0] = v0;
        self.z[0] = v0;
        let x1 = outputs[1];
        let v1 = fx_blend(x1, self.z[1], self.b);
        outputs[1] = v1;
        self.z[1] = v1;
        let x2 = outputs[2];
        let v2 = fx_blend(x2, self.z[2], self.b);
        outputs[2] = v2;
        self.z[2] = v2;
        let x3 = outputs[3];
        let v3 = fx_blend(x3, self.z[3], self.b);
        outputs[3] = v3;
        self.z[3] = v3;
    }

    /// Resets every channel's state to the given value.
    pub fn reset(&mut self, input: i64)
        requires
            old(self)@.wf(),
        ensures
            final(self)@.a == old(self)@.a,
            final(self)@.b == old(self)@.b,
            final(self)@.z =~= seq![input, input, input, input],
            final(self)@.wf(),
    {
        self.z = [input, input, input, input];
    }
}

} // verus!
