use soyboy::{EnvelopeState, GameBoyInstrument, Parameter, Parametric, LEVEL_ONE};

const LEVEL_ONE_I64: i64 = LEVEL_ONE as i64;

#[test]
fn param_round_trip_for_all_five_ids() {
    let values: [u64; 5] = [123_456, 2_000_000, 42, u64::MAX, 0];
    for id in 0..5u32 {
        let mut inst = GameBoyInstrument::new();
        let p = Parameter::try_from(id).expect("ids 0..4 are valid");
        let value = values[id as usize];
        inst.set_param(&p, value);
        assert_eq!(inst.get_param(&p), value, "id {}", id);
    }
}

#[test]
fn params_do_not_disturb_each_other() {
    let mut inst = GameBoyInstrument::new();
    for id in 0..5u32 {
        let p = Parameter::try_from(id).unwrap();
        inst.set_param(&p, 1000 + id as u64);
    }
    for id in 0..5u32 {
        let p = Parameter::try_from(id).unwrap();
        assert_eq!(inst.get_param(&p), 1000 + id as u64);
    }
}

#[test]
fn ids_outside_the_range_fail() {
    assert!(Parameter::try_from(5).is_err());
    assert!(Parameter::try_from(6).is_err());
    assert!(Parameter::try_from(u32::MAX).is_err());
}

#[test]
fn parameter_ids_are_declaration_order() {
    assert_eq!(Parameter::MasterVolume.id(), 0);
    assert_eq!(Parameter::AttackTime.id(), 1);
    assert_eq!(Parameter::DecayTime.id(), 2);
    assert_eq!(Parameter::Sustain.id(), 3);
    assert_eq!(Parameter::ReleaseTime.id(), 4);
    for id in 0..5u32 {
        assert_eq!(Parameter::try_from(id).unwrap().id(), id);
    }
}

#[test]
fn params_through_the_parametric_trait() {
    let mut inst = GameBoyInstrument::new();
    Parametric::set_param(&mut inst, &Parameter::AttackTime, 77);
    assert_eq!(Parametric::get_param(&inst, &Parameter::AttackTime), 77);
}

#[test]
fn end_to_end_a4_square_wave_in_sustain() {
    // Construct, note_on(69) (A4), process at 44100 Hz with empty attack
    // and decay, full sustain and unity master volume: the output must
    // alternate between plus and minus full level with zero-crossings at
    // the expected half-cycle sample index (44100 / 440 / 2 ~ 50.1).
    let mut inst = GameBoyInstrument::new();
    inst.note_on(69);
    for n in 1..=101u32 {
        let (l, r) = inst.process(44100);
        assert_eq!(l, r, "both channels carry the same mono sample");
        if n <= 50 {
            assert_eq!(l, LEVEL_ONE_I64, "sample {}", n);
        } else if n <= 100 {
            assert_eq!(l, -LEVEL_ONE_I64, "sample {}", n);
        } else {
            assert_eq!(l, LEVEL_ONE_I64, "sample {}", n);
        }
        assert_eq!(inst.envelope_gen.state, EnvelopeState::Sustain);
    }
}

#[test]
fn master_volume_scales_the_output() {
    let mut inst = GameBoyInstrument::new();
    inst.set_param(&Parameter::MasterVolume, 500_000);
    inst.note_on(69);
    let (l, _) = inst.process(44100);
    assert_eq!(l, 500_000);
}

#[test]
fn output_saturates_instead_of_overflowing() {
    let mut inst = GameBoyInstrument::new();
    inst.set_param(&Parameter::MasterVolume, u64::MAX);
    inst.note_on(69);
    let (l, r) = inst.process(44100);
    assert_eq!(l, i64::MAX);
    assert_eq!(r, i64::MAX);
    // Second half of the cycle: the same magnitude, negated.
    for _ in 0..50u32 {
        inst.process(44100);
    }
    let (l, _) = inst.process(44100);
    assert_eq!(l, -i64::MAX);
}

#[test]
fn idle_voice_is_silent() {
    let mut inst = GameBoyInstrument::new();
    let (l, r) = inst.process(44100);
    assert_eq!(l, 0);
    assert_eq!(r, 0);
}

#[test]
fn note_off_when_idle_is_a_safe_no_op() {
    let mut inst = GameBoyInstrument::new();
    inst.note_off();
    assert_eq!(inst.envelope_gen.state, EnvelopeState::Idle);
    assert_eq!(inst.envelope_gen.elapsed_ns, 0);
    let (l, _) = inst.process(44100);
    assert_eq!(l, 0);
}

#[test]
fn note_off_releases_and_fades_to_idle() {
    let mut inst = GameBoyInstrument::new();
    inst.set_param(&Parameter::ReleaseTime, 1_000_000); // 1 s
    inst.note_on(69);
    inst.process(44100);
    assert_eq!(inst.envelope_gen.state, EnvelopeState::Sustain);
    inst.note_off();
    assert_eq!(inst.envelope_gen.state, EnvelopeState::Release);
    assert_eq!(inst.envelope_gen.release_start, LEVEL_ONE);
    // At 10 Hz, ten calls cover the whole release.
    for _ in 0..10u32 {
        inst.process(10);
    }
    assert_eq!(inst.envelope_gen.state, EnvelopeState::Idle);
    let (l, _) = inst.process(44100);
    assert_eq!(l, 0);
}

#[test]
fn retrigger_while_sounding_restarts_the_attack() {
    let mut inst = GameBoyInstrument::new();
    inst.set_param(&Parameter::AttackTime, 1_000_000);
    inst.note_on(69);
    for _ in 0..5u32 {
        inst.process(10);
    }
    assert_eq!(inst.envelope_gen.level, 500_000);
    inst.note_on(81);
    assert_eq!(inst.envelope_gen.level, 0);
    assert_eq!(inst.square_osc.freq_millihz, 880_000);
}

#[test]
fn zero_sample_rate_keeps_the_voice_unchanged() {
    let mut inst = GameBoyInstrument::new();
    inst.note_on(69);
    let (l, r) = inst.process(0);
    assert_eq!(l, 0);
    assert_eq!(r, 0);
    assert_eq!(inst.square_osc.phase, 0);
    assert_eq!(inst.envelope_gen.state, EnvelopeState::Attack);
}
