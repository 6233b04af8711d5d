use dsp_tool_box_rs::fixed::FX_ONE;
use dsp_tool_box_rs::modulation::adsr::Adsr;

#[test]
fn name() {
    let mut adsr = Adsr::new();
    adsr.set_attack(FX_ONE);
    adsr.set_decay(FX_ONE);
    adsr.set_sustain(FX_ONE);
    adsr.set_release(FX_ONE);

    adsr.trigger();
    adsr.get_value(2 * FX_ONE);
}
