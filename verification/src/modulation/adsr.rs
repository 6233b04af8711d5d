//! ADSR envelope generator.
//!
//! The envelope is a small state machine over the stages before-trigger,
//! attack, decay, sustain and release.  `get_value` takes the time
//! elapsed since the last stage-defining event (trigger or release) and
//! both returns the current level — a Q32.32 value in `[0, FX_ONE]` —
//! and silently advances the stage when a stage's nominal duration has
//! passed.  Decay and release follow an eased exponential curve shaped
//! to reach roughly -96 dB at the nominal stage end, rather than a
//! linear ramp.

use vstd::prelude::*;

use crate::fixed::{
    exp2_neg, exp2_neg_spec, fx_div, fx_div_spec, fx_mul, fx_mul_spec, lemma_fx_mul_le, FX_ONE,
};
use vstd::arithmetic::div_mod::{lemma_div_is_ordered, lemma_fundamental_div_mod};

verus! {

/// `log2(10^(96/20))` in Q32.32: the multiplier that makes the eased
/// curve `2^(-x * FX_EASE_MULT)` fall to about -96 dB at `x == 1`.
pub const FX_EASE_MULT: u64 = 68484348131;

/// The eased decay/release curve: `0.5 ^ (x * FX_EASE_MULT)` for a
/// normalized stage progress `x` in Q32.32.
pub open spec fn shape_spec(x: int) -> int {
    exp2_neg_spec(fx_mul_spec(x, FX_EASE_MULT as int))
}

/// The reciprocal a stage stores beside its duration: `1 / seconds`, or
/// 0 for a duration of zero (an instant stage).
pub open spec fn recip_spec(seconds: int) -> int {
    if seconds > 0 {
        fx_div_spec(FX_ONE as int, seconds)
    } else {
        0
    }
}

/// A stage duration in seconds together with its precomputed reciprocal.
struct StageTime {
    seconds: u64,
    seconds_recip: u64,
}

impl StageTime {
    spec fn wf(&self) -> bool {
        self.seconds_recip == recip_spec(self.seconds as int)
    }

    fn new(time: u64) -> (r: Self)
        ensures
            r.seconds == time,
            r.wf(),
    {
        Self { seconds: time, seconds_recip: Self::calc_recip_from_time(time) }
    }

    fn set_time(&mut self, time: u64)
        ensures
            final(self).seconds == time,
            final(self).wf(),
    {
        self.seconds = time;
        self.seconds_recip = Self::calc_recip_from_time(time);
    }

    fn calc_recip_from_time(time: u64) -> (r: u64)
        ensures
            r == recip_spec(time as int),
    {
        if time > 0 {
            fx_div(FX_ONE, time)
        } else {
            0
        }
    }
}

/// The lifecycle stage an envelope is in.
#[derive(Debug, Clone, Copy)]
pub enum Stage {
    BeforeTrigger,
    Attack,
    Decay,
    Sustain,
    Release,
}

/// The state of an envelope, as plain mathematical integers.
pub struct AdsrView {
    pub stage: Stage,
    pub attack_seconds: int,
    pub attack_recip: int,
    pub decay_seconds: int,
    pub decay_recip: int,
    pub sustain: int,
    pub release_seconds: int,
    pub release_recip: int,
    pub gate_release_value: int,
}

/// The level of a linear attack ramp at time `t` since trigger.
pub open spec fn attack_value(v: AdsrView, t: int) -> int {
    fx_mul_spec(t, v.attack_recip)
}

/// Time since the start of the decay stage (the attack stage's end),
/// saturated at zero.
pub open spec fn decay_local_time(v: AdsrView, t: int) -> int {
    if t > v.attack_seconds {
        t - v.attack_seconds
    } else {
        0
    }
}

/// The level of the eased decay curve: from 1 down to the sustain level.
pub open spec fn decay_value(v: AdsrView, t: int) -> int {
    FX_ONE - fx_mul_spec(
        FX_ONE - v.sustain,
        shape_spec(fx_mul_spec(decay_local_time(v, t), v.decay_recip)),
    )
}

/// The level of the eased release curve: from the level captured at the
/// last stage event down to 0.
pub open spec fn release_value(v: AdsrView, t: int) -> int {
    v.gate_release_value - fx_mul_spec(
        shape_spec(fx_mul_spec(t, v.release_recip)),
        v.gate_release_value,
    )
}

/// What one `get_value` call does: the state afterwards and the level
/// returned, as a function of the state before and the elapsed time.
pub open spec fn get_value_result(v: AdsrView, t: int) -> (AdsrView, int) {
    match v.stage {
        Stage::BeforeTrigger => (v, 0),
        Stage::Attack => {
            if t > v.attack_seconds {
                decay_result(v, t)
            } else {
                let value = attack_value(v, t);
                (AdsrView { stage: Stage::Attack, gate_release_value: value, ..v }, value)
            }
        },
        Stage::Decay => decay_result(v, t),
        Stage::Sustain => sustain_result(v),
        Stage::Release => {
            if t > v.release_seconds {
                (AdsrView { stage: Stage::BeforeTrigger, ..v }, 0)
            } else {
                (AdsrView { stage: Stage::Release, ..v }, release_value(v, t))
            }
        },
    }
}

/// The decay branch of `get_value_result`, also reached by falling
/// through from a finished attack stage.
pub open spec fn decay_result(v: AdsrView, t: int) -> (AdsrView, int) {
    if decay_local_time(v, t) > v.decay_seconds {
        sustain_result(v)
    } else {
        let value = decay_value(v, t);
        (AdsrView { stage: Stage::Decay, gate_release_value: value, ..v }, value)
    }
}

/// The sustain branch of `get_value_result`: the constant sustain level.
pub open spec fn sustain_result(v: AdsrView) -> (AdsrView, int) {
    (AdsrView { stage: Stage::Sustain, gate_release_value: v.sustain, ..v }, v.sustain)
}

impl AdsrView {
    /// Every envelope reachable through the public API satisfies this:
    /// reciprocals match their durations, and all levels are in
    /// `[0, FX_ONE]`.
    pub open spec fn wf(self) -> bool {
        &&& 0 <= self.attack_seconds <= u64::MAX
        &&& self.attack_recip == recip_spec(self.attack_seconds)
        &&& 0 <= self.decay_seconds <= u64::MAX
        &&& self.decay_recip == recip_spec(self.decay_seconds)
        &&& 0 <= self.release_seconds <= u64::MAX
        &&& self.release_recip == recip_spec(self.release_seconds)
        &&& 0 <= self.sustain <= FX_ONE
        &&& 0 <= self.gate_release_value <= FX_ONE
    }
}

/// A normalized ramp `t / s` never exceeds one while `t` is within the
/// stage: multiplying `t <= s` by the stored reciprocal of `s` stays at
/// or below `FX_ONE`.
pub proof fn lemma_ramp_le_one(t: int, s: int)
    requires
        0 <= t <= s <= u64::MAX,
    ensures
        0 <= fx_mul_spec(t, recip_spec(s)) <= FX_ONE,
{
    let one = FX_ONE as int;
    if s == 0 {
        assert(fx_mul_spec(t, 0) == 0);
    } else {
        let d = one * one;
        let q = d / s;
        lemma_fundamental_div_mod(d, s);
        vstd::arithmetic::div_mod::lemma_mod_division_less_than_divisor(d, s);
        assert(s * q <= d);
        let recip = recip_spec(s);
        assert(recip <= q);
        assert(t * recip <= s * q) by (nonlinear_arith)
            requires
                0 <= t <= s,
                0 <= recip <= q,
        ;
        assert(t * recip >= 0) by (nonlinear_arith)
            requires
                0 <= t,
                0 <= recip,
        ;
        lemma_div_is_ordered(t * recip, d, one);
    }
}

/// ADSR envelope generator over Q32.32 time and level values.
pub struct Adsr {
    stage: Stage,
    attack: StageTime,
    decay: StageTime,
    sustain: u64,
    release: StageTime,
    gate_release_value: u64,
    ease_multiplicator: u64,
}

impl View for Adsr {
    type V = AdsrView;

    closed spec fn view(&self) -> AdsrView {
        AdsrView {
            stage: self.stage,
            attack_seconds: self.attack.seconds as int,
            attack_recip: self.attack.seconds_recip as int,
            decay_seconds: self.decay.seconds as int,
            decay_recip: self.decay.seconds_recip as int,
            sustain: self.sustain as int,
            release_seconds: self.release.seconds as int,
            release_recip: self.release.seconds_recip as int,
            gate_release_value: self.gate_release_value as int,
        }
    }
}

impl Adsr {
    /// A fresh envelope: before its first trigger, one second per stage,
    /// full sustain.
    pub fn new() -> (r: Self)
        ensures
            r@ == (AdsrView {
                stage: Stage::BeforeTrigger,
                attack_seconds: FX_ONE as int,
                attack_recip: recip_spec(FX_ONE as int),
                decay_seconds: FX_ONE as int,
                decay_recip: recip_spec(FX_ONE as int),
                sustain: FX_ONE as int,
                release_seconds: FX_ONE as int,
                release_recip: recip_spec(FX_ONE as int),
                gate_release_value: FX_ONE as int,
            }),
            r.inv(),
    {
        Self {
            stage: Stage::BeforeTrigger,
            attack: StageTime::new(FX_ONE),
            decay: StageTime::new(FX_ONE),
            sustain: FX_ONE,
            release: StageTime::new(FX_ONE),
            gate_release_value: FX_ONE,
            ease_multiplicator: FX_EASE_MULT,
        }
    }

    /// The internal invariant: the view is well formed and the stored
    /// ease multiplier is the fixed curve constant.  Established by
    /// `new` and preserved by every method.
    pub closed spec fn inv(&self) -> bool {
        &&& self@.wf()
        &&& self.ease_multiplicator == FX_EASE_MULT
    }

    /// Starts (or restarts) the envelope: the attack stage begins now.
    pub fn trigger(&mut self)
        requires
            old(self).inv(),
        ensures
            final(self)@ == (AdsrView {
                stage: Stage::Attack,
                gate_release_value: FX_ONE as int,
                ..old(self)@
            }),
            final(self).inv(),
    {
        self.stage = Stage::Attack;
        self.gate_release_value = FX_ONE;
    }

    /// Forces the release stage, from any stage.
    pub fn on_release(&mut self)
        requires
            old(self).inv(),
        ensures
            final(self)@ == (AdsrView { stage: Stage::Release, ..old(self)@ }),
            final(self).inv(),
    {
        self.stage = Stage::Release;
    }

    /// Returns the envelope level for the given elapsed time — measured
    /// since trigger for attack/decay/sustain and since release for the
    /// release stage — and advances the stage when a duration has run
    /// out.  The level is always in `[0, FX_ONE]`.
    pub fn get_value(&mut self, time: u64) -> (value: u64)
        requires
            old(self).inv(),
        ensures
            final(self)@ == get_value_result(old(self)@, time as int).0,
            value == get_value_result(old(self)@, time as int).1,
            final(self).inv(),
            0 <= value <= FX_ONE,
    {
        match self.stage {
            Stage::BeforeTrigger => 0,
            Stage::Attack => self.attack(time),
            Stage::Decay => self.decay(time),
            Stage::Sustain => self.sustain(),
            Stage::Release => self.release(time),
        }
    }

    pub fn set_attack(&mut self, time: u64)
        requires
            old(self).inv(),
        ensures
            final(self)@ == (AdsrView {
                attack_seconds: time as int,
                attack_recip: recip_spec(time as int),
                ..old(self)@
            }),
            final(self).inv(),
    {
        self.attack.set_time(time);
    }

    pub fn set_decay(&mut self, time: u64)
        requires
            old(self).inv(),
        ensures
            final(self)@ == (AdsrView {
                decay_seconds: time as int,
                decay_recip: recip_spec(time as int),
                ..old(self)@
            }),
            final(self).inv(),
    {
        self.decay.set_time(time);
    }

    /// Sets the sustain level.  The level is a fraction of full scale:
    /// at most `FX_ONE`.
    pub fn set_sustain(&mut self, level: u64)
        requires
            old(self).inv(),
            level <= FX_ONE,
        ensures
            final(self)@ == (AdsrView { sustain: level as int, ..old(self)@ }),
            final(self).inv(),
    {
        self.sustain = level;
    }

    pub fn set_release(&mut self, time: u64)
        requires
            old(self).inv(),
        ensures
            final(self)@ == (AdsrView {
                release_seconds: time as int,
                release_recip: recip_spec(time as int),
                ..old(self)@
            }),
            final(self).inv(),
    {
        self.release.set_time(time);
    }

    // private

    fn attack(&mut self, time: u64) -> (value: u64)
        requires
            old(self).inv(),
            old(self)@.stage is Attack,
        ensures
            final(self)@ == get_value_result(old(self)@, time as int).0,
            value == get_value_result(old(self)@, time as int).1,
            final(self).inv(),
            0 <= value <= FX_ONE,
    {
        self.stage = Stage::Attack;
        if time > self.attack.seconds {
            return self.decay(time);
        }
        proof {
            lemma_ramp_le_one(time as int, self.attack.seconds as int);
        }
        self.gate_release_value = fx_mul(time, self.attack.seconds_recip);
        self.gate_release_value
    }

    fn decay(&mut self, time: u64) -> (value: u64)
        requires
            old(self).inv(),
            old(self)@.stage is Attack || old(self)@.stage is Decay,
        ensures
            final(self)@ == decay_result(old(self)@, time as int).0,
            value == decay_result(old(self)@, time as int).1,
            final(self).inv(),
            0 <= value <= FX_ONE,
    {
        self.stage = Stage::Decay;
        let local_time = if time > self.attack.seconds {
            time - self.attack.seconds
        } else {
            0
        };
        if local_time > self.decay.seconds {
            return self.sustain();
        }
        let progress = fx_mul(local_time, self.decay.seconds_recip);
        let sh = self.shape(progress);
        proof {
            lemma_fx_mul_le((FX_ONE - self.sustain) as int, sh as int);
        }
        self.gate_release_value = FX_ONE - fx_mul(FX_ONE - self.sustain, sh);
        self.gate_release_value
    }

    fn sustain(&mut self) -> (value: u64)
        requires
            old(self).inv(),
        ensures
            final(self)@ == sustain_result(old(self)@).0,
            value == sustain_result(old(self)@).1,
            final(self).inv(),
            0 <= value <= FX_ONE,
    {
        self.stage = Stage::Sustain;
        self.gate_release_value = self.sustain;
        self.sustain
    }

    fn release(&mut self, time: u64) -> (value: u64)
        requires
            old(self).inv(),
            old(self)@.stage is Release,
        ensures
            final(self)@ == get_value_result(old(self)@, time as int).0,
            value == get_value_result(old(self)@, time as int).1,
            final(self).inv(),
            0 <= value <= FX_ONE,
    {
        // The release stage runs to 0, starting from the value the
        // envelope had when the key was released (often the sustain
        // level).
        self.stage = Stage::Release;
        if time > self.release.seconds {
            self.stage = Stage::BeforeTrigger;
            return 0;
        }
        let progress = fx_mul(time, self.release.seconds_recip);
        let sh = self.shape(progress);
        proof {
            lemma_fx_mul_le(self.gate_release_value as int, sh as int);
        }
        self.gate_release_value - fx_mul(sh, self.gate_release_value)
    }

    fn shape(&self, x: u64) -> (r: u64)
        requires
            self.ease_multiplicator == FX_EASE_MULT,
        ensures
            r == shape_spec(x as int),
            r <= FX_ONE,
    {
        exp2_neg(fx_mul(x, self.ease_multiplicator))
    }
}

} // verus!
