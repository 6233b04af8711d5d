//! Multi-channel one-pole filter with a low-pass / high-pass mode
//! switch.
//!
//! The coefficient is derived from a cutoff frequency and the sample
//! rate: with `omega = 2 * pi * cutoff`, the low-pass coefficient is
//! `sample_rate_recip / (1/omega + sample_rate_recip)` and the high-pass
//! coefficient `(1/omega) / (1/omega + sample_rate_recip)`.  Per channel
//! the filter keeps the previous input `x_1` and previous output `y_1`:
//!
//! - low pass:  `y = a * x + (1 - a) * y_1`
//! - high pass: `y = a * (y_1 + x - x_1)`

use vstd::prelude::*;

use crate::fixed::{fx_blend, fx_blend_spec, fx_div, fx_div_spec, fx_mul, fx_mul_spec, FX_ONE};
use crate::AudioFrame;
use vstd::arithmetic::div_mod::{
    lemma_div_is_ordered, lemma_div_multiples_vanish, lemma_div_pos_is_pos,
};

verus! {

/// `2 * pi` in Q32.32.
pub const FX_PI2: u64 = 26986075409;

/// Whether the filter acts as a low-pass or a high-pass.
#[derive(Clone, Copy, Debug)]
pub enum OnePoleType {
    LP,
    HP,
}

/// A value squeezed into the signed sample range.
pub open spec fn clamp_sample(v: int) -> int {
    if v > i64::MAX {
        i64::MAX as int
    } else if v < i64::MIN {
        i64::MIN as int
    } else {
        v
    }
}

/// The low-pass output for one channel: `a * x + (1 - a) * y_1`.
pub open spec fn lp_out_spec(a: int, x: int, y_1: int) -> int {
    fx_blend_spec(x, y_1, a)
}

/// The high-pass output for one channel: `a * (y_1 + x - x_1)`, clamped
/// into the sample range.
pub open spec fn hp_out_spec(a: int, x: int, x_1: int, y_1: int) -> int {
    clamp_sample((a * (y_1 + x - x_1)) / (FX_ONE as int))
}

/// The output of one channel for a given mode.
pub open spec fn channel_out_spec(
    filter_type: OnePoleType,
    a: int,
    x: int,
    x_1: int,
    y_1: int,
) -> int {
    match filter_type {
        OnePoleType::LP => lp_out_spec(a, x, y_1),
        OnePoleType::HP => hp_out_spec(a, x, x_1, y_1),
    }
}

/// A coefficient `n * FX_ONE / d`, where the numerator is one part of
/// the two-part denominator — so the result is at most `FX_ONE`.
pub open spec fn part_coeff_spec(n: int, d: int) -> int {
    (n * FX_ONE) / d
}

/// The low-pass coefficient for an angular cutoff `omega` and a sample
/// rate reciprocal, both Q32.32.  A cutoff of zero gives 0 (the filter
/// passes nothing).
pub open spec fn lp_coeff_spec(omega: int, sample_rate_recip: int) -> int {
    if omega == 0 {
        0
    } else {
        part_coeff_spec(
            sample_rate_recip,
            fx_div_spec(FX_ONE as int, omega) + sample_rate_recip,
        )
    }
}

/// The high-pass coefficient for an angular cutoff `omega` and a sample
/// rate reciprocal.  A cutoff of zero gives `FX_ONE` (the filter passes
/// everything).
pub open spec fn hp_coeff_spec(omega: int, sample_rate_recip: int) -> int {
    if omega == 0 {
        FX_ONE as int
    } else {
        part_coeff_spec(
            fx_div_spec(FX_ONE as int, omega),
            fx_div_spec(FX_ONE as int, omega) + sample_rate_recip,
        )
    }
}

/// The coefficient for a given mode.
pub open spec fn coeff_spec(filter_type: OnePoleType, omega: int, sample_rate_recip: int) -> int {
    match filter_type {
        OnePoleType::LP => lp_coeff_spec(omega, sample_rate_recip),
        OnePoleType::HP => hp_coeff_spec(omega, sample_rate_recip),
    }
}

/// The state of a low/high one-pole filter, as plain integers.
pub struct OnePoleView {
    pub a: int,
    pub cutoff: int,
    pub filter_type: OnePoleType,
    pub omega: int,
    pub sample_rate_recip: int,
    pub x_1: Seq<i64>,
    pub y_1: Seq<i64>,
}

impl OnePoleView {
    /// The coefficient is a fraction of one, the reciprocal is positive
    /// and there is one state pair per channel.
    pub open spec fn wf(self) -> bool {
        &&& 0 <= self.a <= FX_ONE
        &&& 0 <= self.cutoff <= u64::MAX
        &&& 0 <= self.omega <= u64::MAX
        &&& 1 <= self.sample_rate_recip <= u64::MAX
        &&& self.x_1.len() == 4
        &&& self.y_1.len() == 4
    }
}

/// Multi-channel one-pole filter with a low-pass / high-pass switch.
#[derive(Clone, Debug)]
pub struct OnePole {
    a: u64,
    cutoff: u64,
    filter_type: OnePoleType,
    omega: u64,
    sample_rate_recip: u64,
    x_1: AudioFrame,
    y_1: AudioFrame,
}

impl View for OnePole {
    type V = OnePoleView;

    closed spec fn view(&self) -> OnePoleView {
        OnePoleView {
            a: self.a as int,
            cutoff: self.cutoff as int,
            filter_type: self.filter_type,
            omega: self.omega as int,
            sample_rate_recip: self.sample_rate_recip as int,
            x_1: self.x_1@,
            y_1: self.y_1@,
        }
    }
}

/// A part of a two-part denominator, scaled by `FX_ONE` and divided by
/// the whole, is at most `FX_ONE`.
proof fn lemma_part_coeff_le_one(n: int, d: int)
    requires
        0 <= n <= d,
        1 <= d,
    ensures
        0 <= part_coeff_spec(n, d) <= FX_ONE,
{
    let one = FX_ONE as int;
    assert(n * one <= d * one) by (nonlinear_arith)
        requires
            0 <= n <= d,
            0 <= one,
    ;
    lemma_div_is_ordered(n * one, d * one, d);
    lemma_div_multiples_vanish(one, d);
    lemma_div_pos_is_pos(n * one, d);
}

/// Computes `n * FX_ONE / (d_low + d_high)` for a numerator that is one
/// of the two denominator parts.
fn part_coeff(n: u64, d_low: u64, d_high: u64) -> (r: u64)
    requires
        n == d_low || n == d_high,
        d_low as int + d_high as int >= 1,
    ensures
        r == part_coeff_spec(n as int, d_low as int + d_high as int),
        r <= FX_ONE,
{
    proof {
        lemma_part_coeff_le_one(n as int, d_low as int + d_high as int);
    }
    let d: u128 = (d_low as u128) + (d_high as u128);
    (((n as u128) * (FX_ONE as u128)) / d) as u64
}

/// The high-pass step `a * (y_1 + x - x_1)`, clamped into the sample
/// range.
fn hp_step(a: u64, x: i64, x_1: i64, y_1: i64) -> (r: i64)
    requires
        a <= FX_ONE,
    ensures
        r == hp_out_spec(a as int, x as int, x_1 as int, y_1 as int),
{
    let s: i128 = (y_1 as i128) + (x as i128) - (x_1 as i128);
    proof {
        let one = FX_ONE as int;
        let k = 27670116110564327424int;
        let p = (a as int) * s;
        assert(one * (-k) <= p <= one * k) by (nonlinear_arith)
            requires
                0 <= a <= one,
                -k <= s <= k,
                p == (a as int) * s,
                0 <= one,
        ;
        lemma_div_is_ordered(one * (-k), p, one);
        lemma_div_is_ordered(p, one * k, one);
        lemma_div_multiples_vanish(k, one);
        lemma_div_multiples_vanish(-k, one);
    }
    let p: i128 = (a as i128) * s;
    let q: i128 = p.checked_div_euclid(FX_ONE as i128).unwrap();
    if q > i64::MAX as i128 {
        i64::MAX
    } else if q < i64::MIN as i128 {
        i64::MIN
    } else {
        q as i64
    }
}

impl OnePole {
    /// A fresh filter: low-pass, a zero coefficient, a default angular
    /// cutoff of `1000 * 2 * pi`, a sample rate reciprocal of one, and
    /// zeroed channel state.
    pub fn new() -> (r: Self)
        ensures
            r@.a == 0,
            r@.cutoff == 0,
            r@.filter_type is LP,
            r@.omega == 1000 * FX_PI2 as int,
            r@.sample_rate_recip == FX_ONE as int,
            r@.x_1 =~= seq![0i64, 0i64, 0i64, 0i64],
            r@.y_1 =~= seq![0i64, 0i64, 0i64, 0i64],
            r@.wf(),
    {
        Self {
            a: 0,
            cutoff: 0,
            filter_type: OnePoleType::LP,
            omega: 1000 * FX_PI2,
            sample_rate_recip: FX_ONE,
            x_1: [0i64, 0i64, 0i64, 0i64],
            y_1: [0i64, 0i64, 0i64, 0i64],
        }
    }

    /// One filter step on channel 0.
    pub fn process_mono(&mut self, input: i64) -> (r: i64)
        requires
            old(self)@.wf(),
        ensures
            r == channel_out_spec(
                old(self)@.filter_type,
                old(self)@.a,
                input as int,
                old(self)@.x_1[0] as int,
                old(self)@.y_1[0] as int,
            ),
            final(self)@ == (OnePoleView {
                x_1: old(self)@.x_1.update(0, input),
                y_1: old(self)@.y_1.update(0, r),
                ..old(self)@
            }),
            final(self)@.wf(),
    {
        let output = match self.filter_type {
            OnePoleType::LP => fx_blend(input, self.y_1[0], self.a),
            OnePoleType::HP => hp_step(self.a, input, self.x_1[0], self.y_1[0]),
        };
        self.x_1[0] = input;
        self.y_1[0] = output;
        output
    }

    /// One filter step on the first two channels of a frame, in place.
    /// The remaining channels pass through unchanged.
    pub fn process(&mut self, outputs: &mut AudioFrame)
        requires
            old(self)@.wf(),
        ensures
            forall|i: int|
                0 <= i < 2 ==> final(outputs)@[i] == channel_out_spec(
                    old(self)@.filter_type,
                    old(self)@.a,
                    old(outputs)@[i] as int,
                    old(self)@.x_1[i] as int,
                    old(self)@.y_1[i] as int,
                ),
            forall|i: int| 2 <= i < 4 ==> final(outputs)@[i] == old(outputs)@[i],
            final(self)@ == (OnePoleView {
                x_1: old(self)@.x_1.update(0, old(outputs)@[0]).update(1, old(outputs)@[1]),
                y_1: old(self)@.y_1.update(0, final(outputs)@[0]).update(1, final(outputs)@[1]),
                ..old(self)@
            }),
            final(self)@.wf(),
    {
        self.process_stereo(outputs);
    }

    /// Stores the reciprocal of the sample rate.  The coefficient is
    /// refreshed by the next `set_frequency` or `set_filter_type` call.
    pub fn set_sample_rate(&mut self, sample_rate: u64)
        requires
            old(self)@.wf(),
            sample_rate >= 1,
        ensures
            final(self)@ == (OnePoleView {
                sample_rate_recip: fx_div_spec(FX_ONE as int, sample_rate as int),
                ..old(self)@
            }),
            final(self)@.wf(),
    {
        proof {
            lemma_div_pos_is_pos((FX_ONE as int) * (FX_ONE as int), sample_rate as int);
            assert((FX_ONE as int) * (FX_ONE as int) / (sample_rate as int) >= 1) by {
                lemma_div_is_ordered(
                    sample_rate as int,
                    (FX_ONE as int) * (FX_ONE as int),
                    sample_rate as int,
                );
                vstd::arithmetic::div_mod::lemma_div_by_self(sample_rate as int);
            }
        }
        self.sample_rate_recip = fx_div(FX_ONE, sample_rate);
    }

    /// Sets the cutoff frequency (Q32.32 Hz), derives the angular
    /// cutoff and recomputes the coefficient.
    pub fn set_frequency(&mut self, frequency: u64)
        requires
            old(self)@.wf(),
        ensures
            final(self)@ == (OnePoleView {
                cutoff: frequency as int,
                omega: fx_mul_spec(FX_PI2 as int, frequency as int),
                a: coeff_spec(
                    old(self)@.filter_type,
                    fx_mul_spec(FX_PI2 as int, frequency as int),
                    old(self)@.sample_rate_recip,
                ),
                ..old(self)@
            }),
            final(self)@.wf(),
    {
        self.cutoff = frequency;
        self.omega = fx_mul(FX_PI2, frequency);
        self.recalc_coeff();
    }

    /// Zeroes all per-channel state.
    pub fn reset(&mut self)
        requires
            old(self)@.wf(),
        ensures
            final(self)@ == (OnePoleView {
                x_1: seq![0i64, 0i64, 0i64, 0i64],
                y_1: seq![0i64, 0i64, 0i64, 0i64],
                ..old(self)@
            }),
            final(self)@.wf(),
    {
        self.y_1 = [0i64, 0i64, 0i64, 0i64];
        self.x_1 = [0i64, 0i64, 0i64, 0i64];
        proof {
            assert(self.x_1@ =~= seq![0i64, 0i64, 0i64, 0i64]);
            assert(self.y_1@ =~= seq![0i64, 0i64, 0i64, 0i64]);
        }
    }

    /// Switches between low-pass and high-pass and recomputes the
    /// coefficient.
    pub fn set_filter_type(&mut self, filter_type: OnePoleType)
        requires
            old(self)@.wf(),
        ensures
            final(self)@ == (OnePoleView {
                filter_type,
                a: coeff_spec(filter_type, old(self)@.omega, old(self)@.sample_rate_recip),
                ..old(self)@
            }),
            final(self)@.wf(),
    {
        self.filter_type = filter_type;
        self.recalc_coeff();
    }

    // private

    fn process_stereo(&mut self, outputs: &mut AudioFrame)
        requires
            old(self)@.wf(),
        ensures
            forall|i: int|
                0 <= i < 2 ==> final(outputs)@[i] == channel_out_spec(
                    old(self)@.filter_type,
                    old(self)@.a,
                    old(outputs)@[i] as int,
                    old(self)@.x_1[i] as int,
                    old(self)@.y_1[i] as int,
                ),
            forall|i: int| 2 <= i < 4 ==> final(outputs)@[i] == old(outputs)@[i],
            final(self)@ == (OnePoleView {
                x_1: old(self)@.x_1.update(0, old(outputs)@[0]).update(1, old(outputs)@[1]),
                y_1: old(self)@.y_1.update(0, final(outputs)@[0]).update(1, final(outputs)@[1]),
                ..old(self)@
            }),
            final(self)@.wf(),
    {
        let x0 = outputs[0];
        let y0 = match self.filter_type {
            OnePoleType::LP => fx_blend(x0, self.y_1[0], self.a),
            OnePoleType::HP => hp_step(self.a, x0, self.x_1[0], self.y_1[0]),
        };
        outputs[0] = y0;
        self.x_1[0] = x0;
        self.y_1[0] = y0;
        let x1 = outputs[1];
        let y1 = match self.filter_type {
            OnePoleType::LP => fx_blend(x1, self.y_1[1], self.a),
            OnePoleType::HP => hp_step(self.a, x1, self.x_1[1], self.y_1[1]),
        };
        outputs[1] = y1;
        self.x_1[1] = x1;
        self.y_1[1] = y1;
    }

    fn recalc_coeff(&mut self)
        requires
            old(self)@.wf(),
        ensures
            final(self)@ == (OnePoleView {
                a: coeff_spec(
                    old(self)@.filter_type,
                    old(self)@.omega,
                    old(self)@.sample_rate_recip,
                ),
                ..old(self)@
            }),
            final(self)@.wf(),
    {
        if self.omega == 0 {
            self.a = match self.filter_type {
                OnePoleType::LP => 0,
                OnePoleType::HP => FX_ONE,
            };
            return ;
        }
        proof {
            lemma_div_pos_is_pos((FX_ONE as int) * (FX_ONE as int), self.omega as int);
        }
        let inv_omega = fx_div(FX_ONE, self.omega);
        self.a = match self.filter_type {
            OnePoleType::LP => part_coeff(self.sample_rate_recip, inv_omega, self.sample_rate_recip),
            OnePoleType::HP => part_coeff(inv_omega, inv_omega, self.sample_rate_recip),
        };
    }
}

/// The low-pass state after `n` steps with a constant input `x`.
pub open spec fn lp_iterate(a: int, x: int, y0: int, n: nat) -> int
    decreases n,
{
    if n == 0 {
        y0
    } else {
        lp_out_spec(a, x, lp_iterate(a, x, y0, (n - 1) as nat))
    }
}

/// A later low-pass state never lies below an earlier one when the
/// state starts at or below the input: each step moves it toward the
/// input and never past it.
proof fn lemma_blend_monotone_state(x: int, y: int, y2: int, w: int)
    requires
        0 <= w <= FX_ONE,
        y <= y2,
    ensures
        fx_blend_spec(x, y, w) <= fx_blend_spec(x, y2, w),
{
    let one = FX_ONE as int;
    assert(w * x + (one - w) * y <= w * x + (one - w) * y2) by (nonlinear_arith)
        requires
            0 <= w <= one,
            y <= y2,
    ;
    lemma_div_is_ordered(w * x + (one - w) * y, w * x + (one - w) * y2, one);
}

/// Law: a one-pole low-pass fed a constant input converges toward that
/// input monotonically and without overshoot.  Starting at or below the
/// input, each further step is at least as high as the last and never
/// exceeds the input.
pub proof fn lemma_low_pass_converges(a: int, x: int, y0: int, n: nat)
    requires
        0 <= a <= FX_ONE,
        y0 <= x,
    ensures
        y0 <= lp_iterate(a, x, y0, n) <= lp_iterate(a, x, y0, n + 1) <= x,
    decreases n,
{
    if n == 0 {
        crate::fixed::lemma_blend_bounds(x, y0, a);
    } else {
        lemma_low_pass_converges(a, x, y0, (n - 1) as nat);
        let prev = lp_iterate(a, x, y0, (n - 1) as nat);
        let cur = lp_iterate(a, x, y0, n);
        lemma_blend_monotone_state(x, prev, cur, a);
        crate::fixed::lemma_blend_bounds(x, cur, a);
    }
}

} // verus!
