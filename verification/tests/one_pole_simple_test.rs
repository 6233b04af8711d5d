use dsp_tool_box_rs::filtering::one_pole_simple::{OnePoleSimple, OnePoleSimpleMulti};
use dsp_tool_box_rs::fixed::{fx_div, fx_from_int, FX_ONE};
use dsp_tool_box_rs::AudioFrame;

const POLE: u64 = FX_ONE / 2;
const INPUT: i64 = FX_ONE as i64;

#[test]
fn one_pole_simple_test_tau_to_pole() {
    let pole = OnePoleSimple::tau_to_pole(fx_div(9, 10), fx_from_int(48000));
    assert_eq!(pole, 4294470222);
    let as_real = pole as f64 / FX_ONE as f64;
    assert!((as_real - 0.999884247).abs() < 1e-6);
}

#[test]
fn one_pole_simple_test_one_pole() {
    let mut filter = OnePoleSimple::new(POLE);
    for n in 0..10 {
        let expected: i64 = FX_ONE as i64 - ((FX_ONE as i64) >> (n + 1));
        let out = filter.process(INPUT);
        assert!(out == expected);
    }
}

#[test]
fn test_one_pole_simple_multi() {
    let mut ops_multi = OnePoleSimpleMulti::new(fx_div(9, 10));
    let inputs: AudioFrame = [0; 4];
    let mut outputs: AudioFrame =
        [FX_ONE as i64, fx_div(3, 4) as i64, (FX_ONE / 2) as i64, (FX_ONE / 4) as i64];

    ops_multi.process(&mut outputs);
    for _ in 0..31 {
        outputs.copy_from_slice(&inputs);
        ops_multi.process(&mut outputs);
    }

    assert_eq!(outputs, [16386172, 12289627, 8193084, 4096539]);
    let reference = [0.0038152013, 0.0028614018, 0.0019076007, 0.00095380034];
    for ch in 0..4 {
        let as_real = outputs[ch] as f64 / FX_ONE as f64;
        assert!((as_real - reference[ch]).abs() < 1e-6);
    }
}
