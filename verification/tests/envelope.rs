use soyboy::{EnvelopeGenerator, EnvelopeState, LEVEL_ONE};

#[test]
fn new_envelope_is_idle_and_silent() {
    let env = EnvelopeGenerator::new();
    assert_eq!(env.state, EnvelopeState::Idle);
    assert_eq!(env.level, 0);
    assert_eq!(env.elapsed_ns, 0);
    assert_eq!(env.sustain_val, LEVEL_ONE as u64);
}

#[test]
fn attack_ramps_linearly_then_decays_to_sustain() {
    let mut env = EnvelopeGenerator::new();
    env.attack_time = 1_000_000; // 1 s
    env.decay_time = 500_000; // 0.5 s
    env.sustain_val = 500_000; // half level
    env.set_state(EnvelopeState::Attack);
    // At 10 Hz each process call advances 0.1 s: one tenth of the attack.
    for n in 1..=9u32 {
        let level = env.process(10);
        assert_eq!(level, n * 100_000, "attack step {}", n);
        assert_eq!(env.state, EnvelopeState::Attack);
    }
    // Attack completes: the decay stage starts from full level.
    let level = env.process(10);
    assert_eq!(level, LEVEL_ONE);
    assert_eq!(env.state, EnvelopeState::Decay);
    // 0.1 s into a 0.5 s decay from full level down to half level.
    let level = env.process(10);
    assert_eq!(level, 900_000);
    for _ in 0..4u32 {
        env.process(10);
    }
    assert_eq!(env.state, EnvelopeState::Sustain);
    assert_eq!(env.level, 500_000);
    // Sustain holds indefinitely.
    for _ in 0..100u32 {
        assert_eq!(env.process(10), 500_000);
    }
}

#[test]
fn release_starts_from_the_level_reached_at_that_instant() {
    let mut env = EnvelopeGenerator::new();
    env.attack_time = 1_000_000;
    env.release_time = 1_000_000;
    env.set_state(EnvelopeState::Attack);
    // 0.3 s into a 1 s attack: level three tenths.
    for _ in 0..3u32 {
        env.process(10);
    }
    assert_eq!(env.level, 300_000);
    env.set_state(EnvelopeState::Release);
    assert_eq!(env.state, EnvelopeState::Release);
    assert_eq!(env.release_start, 300_000);
    // 0.1 s into a 1 s release from 300000: nine tenths remain.
    assert_eq!(env.process(10), 270_000);
}

#[test]
fn note_on_then_immediate_note_off_releases_from_zero() {
    let mut env = EnvelopeGenerator::new();
    env.attack_time = 1_000_000;
    env.release_time = 1_000_000;
    env.set_state(EnvelopeState::Attack);
    assert_eq!(env.level, 0);
    env.set_state(EnvelopeState::Release);
    // Not from full level: from the level reached at that instant.
    assert_eq!(env.release_start, 0);
    assert_eq!(env.process(10), 0);
}

#[test]
fn retrigger_restarts_the_attack() {
    let mut env = EnvelopeGenerator::new();
    env.attack_time = 1_000_000;
    env.set_state(EnvelopeState::Attack);
    for _ in 0..5u32 {
        env.process(10);
    }
    assert_eq!(env.level, 500_000);
    env.set_state(EnvelopeState::Attack);
    assert_eq!(env.level, 0);
    assert_eq!(env.elapsed_ns, 0);
    assert_eq!(env.process(10), 100_000);
}

#[test]
fn zero_stage_times_reach_targets_in_one_call() {
    let mut env = EnvelopeGenerator::new();
    env.sustain_val = 750_000;
    env.set_state(EnvelopeState::Attack);
    // Empty attack and decay: one call lands in sustain.
    let level = env.process(44100);
    assert_eq!(env.state, EnvelopeState::Sustain);
    assert_eq!(level, 750_000);
    env.set_state(EnvelopeState::Release);
    // Empty release: one call lands in idle, silent.
    let level = env.process(44100);
    assert_eq!(env.state, EnvelopeState::Idle);
    assert_eq!(level, 0);
}

#[test]
fn note_off_when_idle_is_a_no_op() {
    let mut env = EnvelopeGenerator::new();
    env.set_state(EnvelopeState::Release);
    assert_eq!(env.state, EnvelopeState::Idle);
    assert_eq!(env.level, 0);
    assert_eq!(env.elapsed_ns, 0);
    assert_eq!(env.process(44100), 0);
    assert_eq!(env.state, EnvelopeState::Idle);
}

#[test]
fn sustain_above_full_level_is_clamped_in_the_output() {
    let mut env = EnvelopeGenerator::new();
    env.sustain_val = 2_000_000;
    env.set_state(EnvelopeState::Attack);
    let level = env.process(44100);
    assert_eq!(env.state, EnvelopeState::Sustain);
    assert_eq!(level, LEVEL_ONE);
    // The tunable itself keeps the written value.
    assert_eq!(env.sustain_val, 2_000_000);
}

#[test]
fn level_stays_in_range_over_an_arbitrary_call_sequence() {
    let mut env = EnvelopeGenerator::new();
    env.attack_time = 3;
    env.decay_time = 100_000;
    env.sustain_val = 900_000;
    env.release_time = 7;
    let states = [
        EnvelopeState::Attack,
        EnvelopeState::Release,
        EnvelopeState::Attack,
        EnvelopeState::Decay,
        EnvelopeState::Sustain,
        EnvelopeState::Release,
        EnvelopeState::Idle,
        EnvelopeState::Attack,
    ];
    let rates = [44100u32, 10, 1, 0, 96000, 1_000_000_000, 4_000_000_000];
    for (i, s) in states.iter().enumerate() {
        env.set_state(*s);
        assert!(env.level <= LEVEL_ONE);
        for (j, sr) in rates.iter().enumerate() {
            let level = env.process(*sr);
            assert!(level <= LEVEL_ONE, "state {} rate {}", i, j);
            assert_eq!(level, env.level);
        }
    }
}
