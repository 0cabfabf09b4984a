use filters::AudioCommand;
use filters::EngineState;
use filters::SelectedFilter;
use filters::engine::broadcast_frames;

#[test]
fn engine_starts_with_defaults_and_matching_rates() {
    let e = EngineState::new(44100);
    assert_eq!(e.sample_rate, 44100);
    assert_eq!(e.params.volume, 0.3f32.to_bits());
    assert_eq!(e.params.cutoff_hz, 1000.0f32.to_bits());
    assert_eq!(e.params.resonance_q, 0.707f32.to_bits());
    assert_eq!(e.params.selected_filter, SelectedFilter::StateVariable);
    assert_eq!(e.bank.biquad.sample_rate, 44100);
    assert_eq!(e.bank.fir.sample_rate, 44100);
    assert_eq!(e.bank.svf.sample_rate, 44100);
    assert_eq!(e.bank.tpt.sample_rate, 44100);
}

#[test]
fn switching_filters_preserves_each_filters_state() {
    let mut e = EngineState::new(44100);

    // Charge the state-variable filter's integrators as a render would.
    e.bank.svf.set_state(0.125f32.to_bits(), 0.375f32.to_bits());

    // Switch away and back again, with other traffic in between.
    let r1 = e.apply_command(AudioCommand::SetSelectedFilter(SelectedFilter::BiQuad));
    assert!(!r1);
    let r2 = e.apply_command(AudioCommand::SetVolume(0.8f32.to_bits()));
    assert!(!r2);
    let r3 = e.apply_command(AudioCommand::SetSelectedFilter(SelectedFilter::StateVariable));
    assert!(!r3);

    // The re-selected filter resumes from its own last state.
    assert_eq!(e.bank.svf.ic1eq, 0.125f32.to_bits());
    assert_eq!(e.bank.svf.ic2eq, 0.375f32.to_bits());
    assert_eq!(e.params.selected_filter, SelectedFilter::StateVariable);
    assert_eq!(e.params.volume, 0.8f32.to_bits());
}

#[test]
fn draining_a_batch_never_touches_the_bank() {
    let mut e = EngineState::new(44100);
    e.bank.biquad.shift_state(0.1f32.to_bits(), 0.2f32.to_bits());
    e.bank.tpt.set_state(0.3f32.to_bits(), 0.4f32.to_bits());
    let bank_before = e.bank;

    let cmds = vec![
        AudioCommand::SetVolume(0.0f32.to_bits()),
        AudioCommand::SetFilterFreq(4000.0f32.to_bits()),
        AudioCommand::SetSelectedFilter(SelectedFilter::StateVariableTPT),
        AudioCommand::SetResonance(3.0f32.to_bits()),
    ];
    let recompute = e.apply_pending(&cmds);

    assert!(recompute);
    assert_eq!(e.bank, bank_before);
    assert_eq!(e.params.volume, 0.0f32.to_bits());
    assert_eq!(e.params.cutoff_hz, 4000.0f32.to_bits());
    assert_eq!(e.params.resonance_q, 3.0f32.to_bits());
    assert_eq!(e.params.selected_filter, SelectedFilter::StateVariableTPT);
}

#[test]
fn batch_without_parameter_math_asks_no_recompute() {
    let mut e = EngineState::new(44100);
    let cmds = vec![
        AudioCommand::SetVolume(0.5f32.to_bits()),
        AudioCommand::SetSelectedFilter(SelectedFilter::BiQuad),
    ];
    assert!(!e.apply_pending(&cmds));
}

#[test]
fn broadcast_duplicates_each_frame_across_channels() {
    let samples = vec![1u32, 2u32, 3u32];
    let out = broadcast_frames(&samples, 2);
    assert_eq!(out, vec![1, 1, 2, 2, 3, 3]);
}

#[test]
fn broadcast_over_one_channel_is_the_identity() {
    let samples = vec![7u32, 8u32, 9u32];
    let out = broadcast_frames(&samples, 1);
    assert_eq!(out, samples);
}

#[test]
fn broadcast_of_no_frames_is_empty() {
    let samples: Vec<u32> = Vec::new();
    let out = broadcast_frames(&samples, 8);
    assert!(out.is_empty());
}
