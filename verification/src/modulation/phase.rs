//! Phase accumulator with selectable synchronization mode.
//!
//! A `Phase` holds only configuration (rate, tempo, sample rate and the
//! factors derived from them); the phase value itself is owned by the
//! caller and passed to [`Phase::advance`], which moves it forward by one
//! block of samples and reports wraparound.  Phase values and all
//! configuration quantities are Q32.32 fixed-point numbers: a phase of
//! [`FX_ONE`] is one full cycle.

use vstd::prelude::*;

use crate::fixed::{fx_div, fx_div_spec, fx_mul, fx_mul_spec, FX_ONE, FX_QUARTER};
use vstd::arithmetic::div_mod::{
    lemma_basic_div, lemma_mod_division_less_than_divisor,
    lemma_fundamental_div_mod, lemma_fundamental_div_mod_converse, lemma_small_mod,
};

verus! {

/// The fixed-point representation of 1/60, used to turn beats per minute
/// into beats per second.
pub const FX_SIXTY_RECIP: u64 = 71582788;

/// Which rule `advance` uses to move a phase value forward.
#[derive(Debug, Clone, Copy)]
pub enum SyncMode {
    FreeRunning,
    TempoSync,
    ProjectSync,
}

/// The configuration a `Phase` holds, as plain mathematical integers.
pub struct PhaseView {
    pub sync_mode: SyncMode,
    pub note_len: int,
    pub project_time: int,
    pub rate: int,
    pub sample_rate_recip: int,
    pub tempo: int,
    pub free_run_factor: int,
    pub tempo_synced_factor: int,
}

impl PhaseView {
    /// Every `Phase` reachable through the public API satisfies this:
    /// the note length is positive, so project time can be range-reduced.
    pub open spec fn wf(self) -> bool {
        &&& 1 <= self.note_len <= u64::MAX
        &&& 0 <= self.project_time <= u64::MAX
        &&& 0 <= self.rate <= u64::MAX
        &&& 0 <= self.sample_rate_recip <= u64::MAX
        &&& 0 <= self.tempo <= u64::MAX
        &&& 0 <= self.free_run_factor <= u64::MAX
        &&& 0 <= self.tempo_synced_factor <= u64::MAX
    }
}

/// A free-running or tempo-synced phase after adding `inc`: wrapped into
/// `[0, FX_ONE)`.
pub open spec fn wrapped_phase(p: int, inc: int) -> int {
    (p + inc) % (FX_ONE as int)
}

/// Whether adding `inc` to phase `p` crosses the end of a cycle.
pub open spec fn wrap_overflow(p: int, inc: int) -> bool {
    p + inc >= FX_ONE
}

/// The phase a project-synced accumulator computes from the host time:
/// `project_time * rate`, normalized into `[0, FX_ONE)`.
pub open spec fn project_phase(project_time: int, rate: int) -> int {
    ((project_time * rate) / (FX_ONE as int)) % (FX_ONE as int)
}

/// The rate that corresponds to a musical note length:
/// `(1 / note_len) * (1 / 4)`, by the quarter-note beat convention.
pub open spec fn rate_for_note_len(note_len: int) -> int {
    fx_mul_spec(fx_div_spec(FX_ONE as int, note_len), FX_QUARTER as int)
}

/// The tempo-synced factor derived from a free-running factor and a tempo
/// in beats per minute.
pub open spec fn tempo_synced(free_run_factor: int, tempo: int) -> int {
    fx_mul_spec(free_run_factor, fx_mul_spec(FX_SIXTY_RECIP as int, tempo))
}

/// Total of a sequence of per-block phase increments.
pub open spec fn total_increment(incs: Seq<int>) -> int
    decreases incs.len(),
{
    if incs.len() == 0 {
        0
    } else {
        total_increment(incs.drop_last()) + incs.last()
    }
}

/// The phase after starting at `p0` and applying one wrapped advance per
/// element of `incs`, as free-running and tempo-synced `advance` do.
pub open spec fn run_phase(p0: int, incs: Seq<int>) -> int
    decreases incs.len(),
{
    if incs.len() == 0 {
        p0
    } else {
        wrapped_phase(run_phase(p0, incs.drop_last()), incs.last())
    }
}

/// How many of those advances crossed the end of a cycle.
pub open spec fn overflow_count(p0: int, incs: Seq<int>) -> int
    decreases incs.len(),
{
    if incs.len() == 0 {
        0
    } else {
        overflow_count(p0, incs.drop_last()) + if wrap_overflow(
            run_phase(p0, incs.drop_last()),
            incs.last(),
        ) {
            1int
        } else {
            0int
        }
    }
}

/// Law: wrapped phase advancement does not drift, and overflows exactly
/// once per full cycle.  Starting at `p0` and advancing by each block
/// increment in turn — each smaller than one cycle, as a per-block
/// increment is — the final phase equals the accumulated increment
/// modulo one cycle, and the number of overflow reports equals the
/// number of completed cycles.
pub proof fn lemma_advance_accumulates(p0: int, incs: Seq<int>)
    requires
        0 <= p0 < FX_ONE,
        forall|i: int| 0 <= i < incs.len() ==> 0 <= #[trigger] incs[i] < FX_ONE,
    ensures
        run_phase(p0, incs) == (p0 + total_increment(incs)) % (FX_ONE as int),
        overflow_count(p0, incs) == (p0 + total_increment(incs)) / (FX_ONE as int),
    decreases incs.len(),
{
    let one = FX_ONE as int;
    if incs.len() == 0 {
        lemma_small_mod(p0 as nat, FX_ONE as nat);
        lemma_basic_div(p0, one);
    } else {
        let front = incs.drop_last();
        let i = incs.last();
        assert(forall|j: int| 0 <= j < front.len() ==> 0 <= #[trigger] front[j] < FX_ONE);
        lemma_advance_accumulates(p0, front);
        let s = total_increment(front);
        let pn = run_phase(p0, front);
        let cn = overflow_count(p0, front);
        lemma_mod_division_less_than_divisor(p0 + s, one);
        lemma_fundamental_div_mod(p0 + s, one);
        if pn + i < one {
            lemma_fundamental_div_mod_converse(p0 + s + i, one, cn, pn + i);
            lemma_small_mod((pn + i) as nat, FX_ONE as nat);
        } else {
            lemma_fundamental_div_mod_converse(p0 + s + i, one, cn + 1, pn + i - one);
            lemma_fundamental_div_mod_converse(pn + i, one, 1, pn + i - one);
        }
    }
}

/// Phase accumulator configuration.  The caller owns the phase value and
/// passes it to `advance` / `advance_one_shot`.
#[derive(Debug, Clone)]
pub struct Phase {
    free_run_factor: u64,
    sync_mode: SyncMode,
    note_len: u64,
    project_time: u64,
    rate: u64,
    sample_rate_recip: u64,
    tempo: u64,
    tempo_synced_factor: u64,
}

impl View for Phase {
    type V = PhaseView;

    closed spec fn view(&self) -> PhaseView {
        PhaseView {
            sync_mode: self.sync_mode,
            note_len: self.note_len as int,
            project_time: self.project_time as int,
            rate: self.rate as int,
            sample_rate_recip: self.sample_rate_recip as int,
            tempo: self.tempo as int,
            free_run_factor: self.free_run_factor as int,
            tempo_synced_factor: self.tempo_synced_factor as int,
        }
    }
}

impl Phase {
    /// The result of one `advance` call: the new phase value and the
    /// overflow flag, as a function of the configuration, the old phase
    /// and the block's total increment.
    pub open spec fn advance_result(self, p: int, num_samples: int) -> (int, bool) {
        match self@.sync_mode {
            SyncMode::FreeRunning => (
                wrapped_phase(p, self@.free_run_factor * num_samples),
                wrap_overflow(p, self@.free_run_factor * num_samples),
            ),
            SyncMode::TempoSync => (
                wrapped_phase(p, self@.tempo_synced_factor * num_samples),
                wrap_overflow(p, self@.tempo_synced_factor * num_samples),
            ),
            SyncMode::ProjectSync => (
                project_phase(self@.project_time, self@.rate),
                project_phase(self@.project_time, self@.rate) < p,
            ),
        }
    }

    /// A fresh accumulator: project-synced, 48 kHz, 120 BPM, a rate of
    /// one tenth of a cycle per sample block unit, and a note length of
    /// 1/32.
    pub fn new() -> (r: Self)
        ensures
            r@ == (PhaseView {
                sync_mode: SyncMode::ProjectSync,
                note_len: FX_ONE as int / 32,
                project_time: 0,
                rate: FX_ONE as int / 10,
                sample_rate_recip: FX_ONE as int / 48000,
                tempo: 120 * FX_ONE as int,
                free_run_factor: 0,
                tempo_synced_factor: 0,
            }),
            r@.wf(),
    {
        Self {
            free_run_factor: 0,
            note_len: FX_ONE / 32,
            project_time: 0,
            rate: FX_ONE / 10,
            sample_rate_recip: FX_ONE / 48000,
            sync_mode: SyncMode::ProjectSync,
            tempo_synced_factor: 0,
            tempo: 120 * FX_ONE,
        }
    }

    /// Stores the host time position, range-reduced modulo the span of
    /// one note (`note_len * 4` beats), so that a long timeline keeps the
    /// stored position small.
    pub fn set_project_time(&mut self, project_time: u64)
        requires
            old(self)@.wf(),
        ensures
            final(self)@ == (PhaseView {
                project_time: project_time as int % (4 * old(self)@.note_len),
                ..old(self)@
            }),
            final(self)@.wf(),
    {
        let divider: u128 = 4u128 * (self.note_len as u128);
        proof {
            vstd::arithmetic::div_mod::lemma_mod_decreases(
                project_time as nat,
                (4 * self.note_len) as nat,
            );
        }
        self.project_time = ((project_time as u128) % divider) as u64;
    }

    pub fn set_sync_mode(&mut self, sync_mode: SyncMode)
        requires
            old(self)@.wf(),
        ensures
            final(self)@ == (PhaseView { sync_mode, ..old(self)@ }),
            final(self)@.wf(),
    {
        self.sync_mode = sync_mode;
    }

    /// Stores the reciprocal of the sample rate and recomputes both
    /// derived factors from the current rate and tempo.
    pub fn set_sample_rate(&mut self, sample_rate: u64)
        requires
            old(self)@.wf(),
            sample_rate >= 1,
        ensures
            final(self)@ == (PhaseView {
                sample_rate_recip: fx_div_spec(FX_ONE as int, sample_rate as int),
                free_run_factor: fx_mul_spec(
                    old(self)@.rate,
                    fx_div_spec(FX_ONE as int, sample_rate as int),
                ),
                tempo_synced_factor: tempo_synced(
                    fx_mul_spec(old(self)@.rate, fx_div_spec(FX_ONE as int, sample_rate as int)),
                    old(self)@.tempo,
                ),
                ..old(self)@
            }),
            final(self)@.wf(),
    {
        self.sample_rate_recip = fx_div(FX_ONE, sample_rate);
        self.free_run_factor = fx_mul(self.rate, self.sample_rate_recip);
        self.tempo_synced_factor = fx_mul(self.free_run_factor, fx_mul(FX_SIXTY_RECIP, self.tempo));
    }

    /// Sets the raw rate.  Derived factors are not recomputed here; call
    /// `set_sample_rate` afterwards to refresh them.
    pub fn set_rate(&mut self, rate: u64)
        requires
            old(self)@.wf(),
        ensures
            final(self)@ == (PhaseView { rate: rate as int, ..old(self)@ }),
            final(self)@.wf(),
    {
        self.rate = rate;
    }

    /// Sets the musical note length (a fraction of a whole note) and the
    /// rate derived from it.
    pub fn set_note_len(&mut self, note_len: u64)
        requires
            old(self)@.wf(),
            note_len >= 1,
        ensures
            final(self)@ == (PhaseView {
                note_len: note_len as int,
                rate: rate_for_note_len(note_len as int),
                ..old(self)@
            }),
            final(self)@.wf(),
    {
        self.note_len = note_len;
        let rate = Self::note_len_to_rate(note_len);
        self.set_rate(rate);
    }

    pub fn note_len(&self) -> (r: u64)
        ensures
            r == self@.note_len,
    {
        self.note_len
    }

    /// Stores the tempo and recomputes the tempo-synced factor from the
    /// current free-running factor.
    pub fn set_tempo(&mut self, tempo_bpm: u64)
        requires
            old(self)@.wf(),
        ensures
            final(self)@ == (PhaseView {
                tempo: tempo_bpm as int,
                tempo_synced_factor: tempo_synced(old(self)@.free_run_factor, tempo_bpm as int),
                ..old(self)@
            }),
            final(self)@.wf(),
    {
        self.tempo = tempo_bpm;
        let factor = fx_mul(FX_SIXTY_RECIP, self.tempo);
        self.tempo_synced_factor = fx_mul(self.free_run_factor, factor);
    }

    /// Advances the caller-owned phase value by `num_samples` samples.
    ///
    /// Free-running and tempo-synced modes add `factor * num_samples` and
    /// wrap into `[0, FX_ONE)`, reporting whether the end of the cycle
    /// was crossed.  Project-synced mode recomputes the phase from the
    /// stored host time and reports wraparound as a decrease of the
    /// phase value between calls.
    pub fn advance(&self, phase: &mut u64, num_samples: usize) -> (overflow: bool)
        ensures
            *final(phase) == self.advance_result(*old(phase) as int, num_samples as int).0,
            overflow == self.advance_result(*old(phase) as int, num_samples as int).1,
    {
        match self.sync_mode {
            SyncMode::FreeRunning => {
                proof {
                    assert((self.free_run_factor as int) * (num_samples as int) <= (u64::MAX
                        as int) * (u64::MAX as int)) by (nonlinear_arith)
                        requires
                            self.free_run_factor <= u64::MAX,
                            num_samples <= u64::MAX,
                    ;
                }
                let inc: u128 = (self.free_run_factor as u128) * (num_samples as u128);
                let total: u128 = (*phase as u128) + inc;
                *phase = (total % (FX_ONE as u128)) as u64;
                total >= FX_ONE as u128
            },
            SyncMode::TempoSync => {
                proof {
                    assert((self.tempo_synced_factor as int) * (num_samples as int) <= (u64::MAX
                        as int) * (u64::MAX as int)) by (nonlinear_arith)
                        requires
                            self.tempo_synced_factor <= u64::MAX,
                            num_samples <= u64::MAX,
                    ;
                }
                let inc: u128 = (self.tempo_synced_factor as u128) * (num_samples as u128);
                let total: u128 = (*phase as u128) + inc;
                *phase = (total % (FX_ONE as u128)) as u64;
                total >= FX_ONE as u128
            },
            SyncMode::ProjectSync => {
                let old_phase = *phase;
                proof {
                    assert((self.project_time as int) * (self.rate as int) <= (u64::MAX as int) * (
                    u64::MAX as int)) by (nonlinear_arith)
                        requires
                            self.project_time <= u64::MAX,
                            self.rate <= u64::MAX,
                    ;
                }
                let scaled: u128 = (self.project_time as u128) * (self.rate as u128);
                *phase = ((scaled / (FX_ONE as u128)) % (FX_ONE as u128)) as u64;
                *phase < old_phase
            },
        }
    }

    /// Like `advance`, but modelling a non-repeating ramp: a phase that
    /// has reached `FX_ONE` stays there, and the call that first crosses
    /// the end of the ramp clamps the phase to exactly `FX_ONE` instead
    /// of wrapping.
    pub fn advance_one_shot(&self, phase: &mut u64, num_samples: usize) -> (overflow: bool)
        ensures
            *old(phase) >= FX_ONE ==> overflow && *final(phase) == *old(phase),
            *old(phase) < FX_ONE ==> {
                let (p, ov) = self.advance_result(*old(phase) as int, num_samples as int);
                &&& overflow == ov
                &&& *final(phase) == if ov {
                    FX_ONE as int
                } else {
                    p
                }
            },
    {
        if *phase >= FX_ONE {
            true
        } else {
            let is_overflow = self.advance(phase, num_samples);
            if is_overflow {
                *phase = FX_ONE;
            }
            is_overflow
        }
    }

    /// The rate equivalent to a note length: `(1 / note_len) * (1 / 4)`.
    pub fn note_len_to_rate(note_len: u64) -> (r: u64)
        requires
            note_len >= 1,
        ensures
            r == rate_for_note_len(note_len as int),
    {
        fx_mul(fx_div(FX_ONE, note_len), FX_QUARTER)
    }
}

} // verus!
