use dsp_tool_box_rs::filtering::one_pole_filter::OnePole;
use dsp_tool_box_rs::filtering::one_pole_simple::OnePoleSimpleMulti;
use dsp_tool_box_rs::fixed::{fx_div, fx_from_int, FX_ONE};
use dsp_tool_box_rs::AudioFrame;

const POLE: u64 = FX_ONE / 2;
const INPUT: i64 = FX_ONE as i64;

/// `1 - 2^-(n+1)` in Q32.32: the exact outputs of a pole-0.5 smoother
/// fed a constant 1.
fn results() -> Vec<i64> {
    (0..10).map(|n| FX_ONE as i64 - ((FX_ONE as i64) >> (n + 1))).collect()
}

#[test]
fn one_pole_filter_test_test_tau_to_pole() {
    let pole = OnePole::tau_to_pole(fx_div(9, 10), fx_from_int(48000));
    assert_eq!(pole, 4294470222);
    let as_real = pole as f64 / FX_ONE as f64;
    assert!((as_real - 0.999884247).abs() < 1e-6);
}

#[test]
fn one_pole_filter_test_test_one_pole() {
    let mut filter = OnePole::new(POLE);
    for item in results() {
        let out = filter.process(INPUT);
        assert!(out == item);
    }
}

#[test]
fn test_one_pole_multi() {
    let mut filter = OnePoleSimpleMulti::new(POLE);
    for item in results() {
        let mut frame: AudioFrame = [INPUT, INPUT, INPUT, INPUT];
        filter.process(&mut frame);
        assert!(frame == [item, item, item, item]);
    }
}
