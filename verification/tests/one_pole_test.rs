use dsp_tool_box_rs::filtering::one_pole::{OnePole, OnePoleType};
use dsp_tool_box_rs::fixed::{fx_div, FX_ONE};
use dsp_tool_box_rs::AudioFrame;

#[test]
fn test_delay_line_multi() {
    let mut one_pole = OnePole::new();
    one_pole.set_sample_rate(44100 * FX_ONE);
    one_pole.set_filter_type(OnePoleType::LP);
    one_pole.set_frequency(2000 * FX_ONE);
    one_pole.reset();

    let mut outputs: AudioFrame =
        [FX_ONE as i64, fx_div(3, 4) as i64, (FX_ONE / 2) as i64, (FX_ONE / 4) as i64];
    let inputs: AudioFrame = [0; 4];

    one_pole.process(&mut outputs);
    for _ in 0..31 {
        outputs.copy_from_slice(&inputs);
        one_pole.process(&mut outputs);
    }

    assert_eq!(outputs, [401200, 300899, 0, 0]);
    let reference = [9.341004e-5, 7.0057526e-5, 0.0, 0.0];
    for ch in 0..4 {
        let as_real = outputs[ch] as f64 / FX_ONE as f64;
        assert!((as_real - reference[ch]).abs() < 1e-6);
    }
}

#[test]
fn test_delay_clone_copy() {
    let _filter_arr = [OnePole::new(), OnePole::new()];
    let _filter_vec = vec![OnePole::new(); 2];
}

#[test]
fn test_high_pass_blocks_constant() {
    let mut one_pole = OnePole::new();
    one_pole.set_sample_rate(44100 * FX_ONE);
    one_pole.set_filter_type(OnePoleType::HP);
    one_pole.set_frequency(2000 * FX_ONE);
    one_pole.reset();

    // A constant input decays toward zero through a high pass.
    let mut last = one_pole.process_mono(FX_ONE as i64);
    assert!(last > 0 && last < FX_ONE as i64);
    for _ in 0..63 {
        let out = one_pole.process_mono(FX_ONE as i64);
        assert!(0 <= out && out <= last);
        last = out;
    }
}

#[test]
fn test_zero_cutoff_coefficients() {
    let mut one_pole = OnePole::new();
    one_pole.set_sample_rate(48000 * FX_ONE);

    // Low pass with zero cutoff passes nothing: output is pinned at 0.
    one_pole.set_filter_type(OnePoleType::LP);
    one_pole.set_frequency(0);
    assert_eq!(one_pole.process_mono(FX_ONE as i64), 0);

    // High pass with zero cutoff passes everything: output follows the
    // input exactly.
    one_pole.set_filter_type(OnePoleType::HP);
    one_pole.set_frequency(0);
    one_pole.reset();
    assert_eq!(one_pole.process_mono(FX_ONE as i64), FX_ONE as i64);
}
