use dsp_tool_box_rs::filtering::one_pole::{OnePole, OnePoleType};
use dsp_tool_box_rs::fixed::{fx_div, FX_ONE};
use dsp_tool_box_rs::modulation::adsr::Adsr;
use dsp_tool_box_rs::modulation::phase::{Phase, SyncMode};

/// After `set_sample_rate`, one free-running advance moves the phase by
/// exactly `rate * (1 / sample_rate)`: the derived factor holds no
/// stale state and no drift.
#[test]
fn free_run_factor_is_derived_exactly() {
    let mut context = Phase::new();
    context.set_sync_mode(SyncMode::FreeRunning);
    context.set_rate(fx_div(1, 10));
    context.set_sample_rate(44100 * FX_ONE);

    // 1/44100 in Q32.32 is 97391; 0.1 * 97391 scaled down is 9739.
    let mut value: u64 = 0;
    let overflow = context.advance(&mut value, 1);
    assert!(!overflow);
    assert_eq!(value, 9739);
}

/// `set_rate` alone does not touch the derived factor; the next
/// `set_sample_rate` call refreshes it.
#[test]
fn set_rate_takes_effect_with_set_sample_rate() {
    let mut context = Phase::new();
    context.set_sync_mode(SyncMode::FreeRunning);
    context.set_rate(fx_div(1, 10));
    context.set_sample_rate(44100 * FX_ONE);

    context.set_rate(fx_div(2, 10));
    let mut value: u64 = 0;
    context.advance(&mut value, 1);
    assert_eq!(value, 9739);

    context.set_sample_rate(44100 * FX_ONE);
    let mut value2: u64 = 0;
    context.advance(&mut value2, 1);
    assert_eq!(value2, 19478);
}

/// Free-running advancement accumulates modulo one cycle and reports
/// overflow exactly once per completed cycle.
#[test]
fn free_running_accumulates_without_drift() {
    let mut context = Phase::new();
    context.set_sync_mode(SyncMode::FreeRunning);
    context.set_rate(fx_div(3, 10));
    context.set_sample_rate(FX_ONE);

    // Each advance adds 0.3 of a cycle (1288490188 of 4294967296).
    let mut value: u64 = 0;
    let mut overflows = 0;
    for _ in 0..4 {
        if context.advance(&mut value, 1) {
            overflows += 1;
        }
    }
    assert_eq!(overflows, 1);
    assert_eq!(value, 4 * 1288490188 - FX_ONE);

    // Six more advances: ten increments of the truncated 0.3 fall just
    // short of three full cycles, so exactly one more overflow comes.
    for _ in 0..6 {
        if context.advance(&mut value, 1) {
            overflows += 1;
        }
    }
    assert_eq!(overflows, 2);
    assert_eq!(value, 10 * 1288490188 - 2 * FX_ONE);
}

/// Tempo-synced advancement uses `free_run_factor * (tempo / 60)`.
#[test]
fn tempo_synced_factor_follows_tempo() {
    let mut context = Phase::new();
    context.set_sync_mode(SyncMode::TempoSync);
    context.set_rate(fx_div(1, 10));
    context.set_tempo(120 * FX_ONE);
    context.set_sample_rate(44100 * FX_ONE);

    // The free-running factor is 9739; at 120 BPM the tempo factor is
    // just below 2, so the synced factor is 19477.
    let mut value: u64 = 0;
    context.advance(&mut value, 1);
    assert_eq!(value, 19477);
}

/// A one-shot ramp clamps to exactly one full cycle and sticks there.
#[test]
fn one_shot_sticks_at_the_ceiling() {
    let mut context = Phase::new();
    context.set_sync_mode(SyncMode::FreeRunning);
    context.set_rate(fx_div(4, 10));
    context.set_sample_rate(FX_ONE);

    let mut value: u64 = 0;
    assert!(!context.advance_one_shot(&mut value, 1));
    assert!(!context.advance_one_shot(&mut value, 1));
    // The third step crosses the end of the ramp: clamped, not wrapped.
    assert!(context.advance_one_shot(&mut value, 1));
    assert_eq!(value, FX_ONE);
    // Once at the ceiling, later calls report true and leave it there.
    assert!(context.advance_one_shot(&mut value, 1));
    assert_eq!(value, FX_ONE);
    assert!(context.advance_one_shot(&mut value, 7));
    assert_eq!(value, FX_ONE);
}

/// A whole note converts to a rate of exactly one quarter.
#[test]
fn note_len_to_rate_whole_note() {
    assert_eq!(Phase::note_len_to_rate(FX_ONE), FX_ONE / 4);
    // A 1/32 note spans an eighth of a cycle per beat.
    assert_eq!(Phase::note_len_to_rate(FX_ONE / 32), 8 * FX_ONE);
}

/// The envelope starts its attack at zero, reaches full scale at the
/// attack boundary, holds the sustain level, and releases to zero.
#[test]
fn adsr_stage_progression() {
    let mut adsr = Adsr::new();
    adsr.set_attack(FX_ONE);
    adsr.set_decay(FX_ONE);
    adsr.set_sustain(FX_ONE / 2);
    adsr.set_release(FX_ONE);

    adsr.trigger();
    assert_eq!(adsr.get_value(0), 0);
    // Half way into the attack the linear ramp is at one half.
    assert_eq!(adsr.get_value(FX_ONE / 2), FX_ONE / 2);
    assert_eq!(adsr.get_value(FX_ONE), FX_ONE);

    // During decay the level eases from full scale toward the sustain
    // level and never undershoots it.
    let mid_decay = adsr.get_value(FX_ONE + FX_ONE / 2);
    assert!(FX_ONE / 2 <= mid_decay && mid_decay < FX_ONE);
    assert_eq!(mid_decay, 4286418010);

    // After the decay has run out the level is exactly the sustain
    // level, for any further elapsed time.
    assert_eq!(adsr.get_value(3 * FX_ONE), FX_ONE / 2);
    assert_eq!(adsr.get_value(1000 * FX_ONE), FX_ONE / 2);

    adsr.on_release();
    // Part way into the release the level has fallen below sustain.
    let mid_release = adsr.get_value(FX_ONE / 2);
    assert!(mid_release < FX_ONE / 2);
    assert_eq!(mid_release, 2138934362);
    // Past the nominal release time the envelope is done.
    assert_eq!(adsr.get_value(FX_ONE + 1), 0);
    // And it stays done: before the next trigger the level is zero.
    assert_eq!(adsr.get_value(0), 0);
    assert_eq!(adsr.get_value(FX_ONE / 4), 0);
}

/// A re-trigger restarts the attack from the beginning.
#[test]
fn adsr_retrigger_restarts_attack() {
    let mut adsr = Adsr::new();
    adsr.set_sustain(FX_ONE / 4);
    adsr.trigger();
    assert_eq!(adsr.get_value(10 * FX_ONE), FX_ONE / 4);
    adsr.trigger();
    assert_eq!(adsr.get_value(0), 0);
    assert_eq!(adsr.get_value(FX_ONE / 4), FX_ONE / 4);
}

/// An instant stage (zero seconds) falls straight through.
#[test]
fn adsr_instant_stages() {
    let mut adsr = Adsr::new();
    adsr.set_attack(0);
    adsr.set_decay(0);
    adsr.set_sustain(fx_div(3, 10));
    adsr.trigger();
    // Any positive elapsed time is already past attack and decay.
    assert_eq!(adsr.get_value(1), fx_div(3, 10));
    adsr.set_release(0);
    adsr.on_release();
    assert_eq!(adsr.get_value(1), 0);
}

/// A low-pass fed a constant input converges toward that input
/// monotonically and without overshoot.
#[test]
fn low_pass_converges_monotonically() {
    let mut one_pole = OnePole::new();
    one_pole.set_sample_rate(44100 * FX_ONE);
    one_pole.set_filter_type(OnePoleType::LP);
    one_pole.set_frequency(2000 * FX_ONE);
    one_pole.reset();

    let target: i64 = FX_ONE as i64;
    let mut last: i64 = 0;
    for _ in 0..200 {
        let out = one_pole.process_mono(target);
        assert!(last <= out && out <= target);
        last = out;
    }
    // After many time constants the output has closed most of the gap.
    assert!(last > target / 2);
}
