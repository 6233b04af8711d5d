use dsp_tool_box_rs::fixed::{fx_div, FX_ONE};
use dsp_tool_box_rs::modulation::phase::{Phase, SyncMode};

#[test]
fn test_advance() {
    let context = Phase::new();
    let mut value: u64 = fx_div(1, 10);
    let did_overflow = context.advance(&mut value, 1);
    assert_eq!(did_overflow, true);
}

#[test]
fn test_project_synced_overflow() {
    let mut phase_value: u64 = 0;
    let mut context = Phase::new();
    context.set_sync_mode(SyncMode::ProjectSync);
    context.set_note_len(FX_ONE);

    context.set_project_time(fx_div(39, 10));
    let overflow = context.advance(&mut phase_value, 1);
    assert_eq!(overflow, false);

    context.set_project_time(4 * FX_ONE);
    let overflow = context.advance(&mut phase_value, 1);
    assert_eq!(overflow, true);
}

#[test]
fn test_project_synced_overflow_huge_project_time() {
    let mut phase_value: u64 = 0;
    let mut context = Phase::new();
    context.set_sync_mode(SyncMode::ProjectSync);
    context.set_note_len(FX_ONE);

    context.set_project_time(fx_div(9999999, 10));
    let overflow = context.advance(&mut phase_value, 1);
    assert_eq!(overflow, false);

    context.set_project_time(4 * FX_ONE);
    let overflow = context.advance(&mut phase_value, 1);
    assert_eq!(overflow, true);
}

#[test]
fn test_project_synced_phase_values() {
    // With a whole-note length the rate is a quarter; a host time of
    // 3.9 beats lands just below the cycle end, 4.0 wraps to 0.
    let mut phase_value: u64 = 0;
    let mut context = Phase::new();
    context.set_sync_mode(SyncMode::ProjectSync);
    context.set_note_len(FX_ONE);

    context.set_project_time(fx_div(39, 10));
    context.advance(&mut phase_value, 1);
    assert_eq!(phase_value, 4187593113);

    context.set_project_time(4 * FX_ONE);
    context.advance(&mut phase_value, 1);
    assert_eq!(phase_value, 0);
}
