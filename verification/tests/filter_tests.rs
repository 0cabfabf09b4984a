use filters::BiQuadFilter;
use filters::FilterType;
use filters::FirLowPassFilter;
use filters::StateVariableFilter;
use filters::StateVariableTPTFilter;

#[test]
fn biquad_starts_as_pass_through() {
    let f = BiQuadFilter::new(44100);
    assert_eq!(f.sample_rate, 44100);
    assert_eq!(f.b0, 1.0f32.to_bits());
    assert_eq!(f.a0, 1.0f32.to_bits());
    assert_eq!(f.b1, 0);
    assert_eq!(f.b2, 0);
    assert_eq!(f.a1, 0);
    assert_eq!(f.a2, 0);
    assert_eq!(f.x1, 0);
    assert_eq!(f.x2, 0);
    assert_eq!(f.y1, 0);
    assert_eq!(f.y2, 0);
}

#[test]
fn biquad_set_coefficients_keeps_delay_state() {
    let mut f = BiQuadFilter::new(44100);
    f.shift_state(0.5f32.to_bits(), 0.25f32.to_bits());
    f.set_coefficients(
        1.5f32.to_bits(),
        0.75f32.to_bits(),
        1.1f32.to_bits(),
        (-1.8f32).to_bits(),
        0.9f32.to_bits(),
    );
    assert_eq!(f.b1, 1.5f32.to_bits());
    assert_eq!(f.b2, 0.75f32.to_bits());
    assert_eq!(f.a0, 1.1f32.to_bits());
    assert_eq!(f.a1, (-1.8f32).to_bits());
    assert_eq!(f.a2, 0.9f32.to_bits());
    assert_eq!(f.b0, 1.0f32.to_bits());
    assert_eq!(f.x1, 0.5f32.to_bits());
    assert_eq!(f.y1, 0.25f32.to_bits());
}

#[test]
fn biquad_set_coefficients_twice_is_once() {
    let mut f = BiQuadFilter::new(44100);
    f.set_coefficients(
        1.5f32.to_bits(),
        0.75f32.to_bits(),
        1.1f32.to_bits(),
        (-1.8f32).to_bits(),
        0.9f32.to_bits(),
    );
    let once = f;
    f.set_coefficients(
        1.5f32.to_bits(),
        0.75f32.to_bits(),
        1.1f32.to_bits(),
        (-1.8f32).to_bits(),
        0.9f32.to_bits(),
    );
    assert_eq!(f, once);
}

#[test]
fn biquad_shift_state_moves_the_history_in_order() {
    let mut f = BiQuadFilter::new(44100);
    f.shift_state(0.1f32.to_bits(), 0.2f32.to_bits());
    f.shift_state(0.3f32.to_bits(), 0.4f32.to_bits());
    assert_eq!(f.x1, 0.3f32.to_bits());
    assert_eq!(f.x2, 0.1f32.to_bits());
    assert_eq!(f.y1, 0.4f32.to_bits());
    assert_eq!(f.y2, 0.2f32.to_bits());
}

#[test]
fn biquad_reset_zeroes_only_delay_state() {
    let mut f = BiQuadFilter::new(44100);
    f.set_coefficients(
        1.5f32.to_bits(),
        0.75f32.to_bits(),
        1.1f32.to_bits(),
        (-1.8f32).to_bits(),
        0.9f32.to_bits(),
    );
    f.shift_state(0.1f32.to_bits(), 0.2f32.to_bits());
    f.reset();
    assert_eq!(f.x1, 0);
    assert_eq!(f.x2, 0);
    assert_eq!(f.y1, 0);
    assert_eq!(f.y2, 0);
    assert_eq!(f.b1, 1.5f32.to_bits());
    assert_eq!(f.b2, 0.75f32.to_bits());
    assert_eq!(f.a0, 1.1f32.to_bits());
    assert_eq!(f.a1, (-1.8f32).to_bits());
    assert_eq!(f.a2, 0.9f32.to_bits());
}

#[test]
fn fir_ignores_cutoff_and_resonance() {
    let mut a = FirLowPassFilter::new(44100);
    let mut b = FirLowPassFilter::new(44100);
    a.push_input(0.6f32.to_bits());
    b.push_input(0.6f32.to_bits());
    a.update_coefficients(500.0f32.to_bits(), 0.5f32.to_bits());
    b.update_coefficients(15000.0f32.to_bits(), 12.0f32.to_bits());
    assert_eq!(a, b);
    let untouched = a;
    a.update_coefficients(20.0f32.to_bits(), 30.0f32.to_bits());
    assert_eq!(a, untouched);
}

#[test]
fn fir_push_input_replaces_only_the_previous_sample() {
    let mut f = FirLowPassFilter::new(44100);
    f.push_input(0.25f32.to_bits());
    assert_eq!(f.s1, 0.25f32.to_bits());
    assert_eq!(f.s2, 0);
    f.push_input(0.5f32.to_bits());
    assert_eq!(f.s1, 0.5f32.to_bits());
    assert_eq!(f.s2, 0);
    f.reset();
    assert_eq!(f.s1, 0);
    assert_eq!(f.s2, 0);
}

#[test]
fn svf_set_coefficients_keeps_integrator_state() {
    let mut f = StateVariableFilter::new(44100);
    f.set_state(0.125f32.to_bits(), 0.375f32.to_bits());
    f.set_coefficients(
        0.07f32.to_bits(),
        1.41f32.to_bits(),
        0.9f32.to_bits(),
        0.06f32.to_bits(),
        0.004f32.to_bits(),
    );
    assert_eq!(f.ic1eq, 0.125f32.to_bits());
    assert_eq!(f.ic2eq, 0.375f32.to_bits());
    assert_eq!(f.g, 0.07f32.to_bits());
    assert_eq!(f.k, 1.41f32.to_bits());
}

#[test]
fn svf_reset_discharges_only_the_integrators() {
    let mut f = StateVariableFilter::new(44100);
    f.set_coefficients(
        0.07f32.to_bits(),
        1.41f32.to_bits(),
        0.9f32.to_bits(),
        0.06f32.to_bits(),
        0.004f32.to_bits(),
    );
    f.set_state(0.125f32.to_bits(), 0.375f32.to_bits());
    f.reset();
    assert_eq!(f.ic1eq, 0);
    assert_eq!(f.ic2eq, 0);
    assert_eq!(f.g, 0.07f32.to_bits());
    assert_eq!(f.k, 1.41f32.to_bits());
    assert_eq!(f.a1, 0.9f32.to_bits());
    assert_eq!(f.a2, 0.06f32.to_bits());
    assert_eq!(f.a3, 0.004f32.to_bits());
}

#[test]
fn svf_set_coefficients_twice_is_once() {
    let mut f = StateVariableFilter::new(44100);
    f.set_coefficients(
        0.07f32.to_bits(),
        1.41f32.to_bits(),
        0.9f32.to_bits(),
        0.06f32.to_bits(),
        0.004f32.to_bits(),
    );
    let once = f;
    f.set_coefficients(
        0.07f32.to_bits(),
        1.41f32.to_bits(),
        0.9f32.to_bits(),
        0.06f32.to_bits(),
        0.004f32.to_bits(),
    );
    assert_eq!(f, once);
}

#[test]
fn tpt_starts_on_the_band_pass_tap() {
    let f = StateVariableTPTFilter::new(44100);
    assert_eq!(f.filter_type, FilterType::BandPass);
    assert_eq!(f.g, 0);
    assert_eq!(f.h, 0);
    assert_eq!(f.r2, 0);
    assert_eq!(f.s1, 0);
    assert_eq!(f.s2, 0);
}

#[test]
fn tpt_select_output_follows_the_tap() {
    let mut f = StateVariableTPTFilter::new(44100);
    let lp = 0.1f32.to_bits();
    let bp = 0.2f32.to_bits();
    let hp = 0.3f32.to_bits();
    assert_eq!(f.select_output(lp, bp, hp), bp);
    f.set_filter_type(FilterType::LowPass);
    assert_eq!(f.select_output(lp, bp, hp), lp);
    f.set_filter_type(FilterType::HighPass);
    assert_eq!(f.select_output(lp, bp, hp), hp);
}

#[test]
fn tpt_reset_keeps_coefficients_and_tap() {
    let mut f = StateVariableTPTFilter::new(44100);
    f.set_filter_type(FilterType::LowPass);
    f.set_coefficients(0.07f32.to_bits(), 1.41f32.to_bits(), 0.9f32.to_bits());
    f.set_state(0.5f32.to_bits(), 0.6f32.to_bits());
    f.reset();
    assert_eq!(f.s1, 0);
    assert_eq!(f.s2, 0);
    assert_eq!(f.g, 0.07f32.to_bits());
    assert_eq!(f.r2, 1.41f32.to_bits());
    assert_eq!(f.h, 0.9f32.to_bits());
    assert_eq!(f.filter_type, FilterType::LowPass);
}
