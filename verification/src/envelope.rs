//! Attack/decay/sustain/release envelope generator: a five-state timed
//! state machine producing a level multiplier in `[0, LEVEL_ONE]` once per
//! processed sample.
//!
//! Levels are micro-units (`LEVEL_ONE` = full level), stage tunables are
//! microseconds, and the elapsed-time counter is nanoseconds. All ramps
//! are linear. A stage time of zero means the stage completes within the
//! next `process` call. A `sustain_val` above `LEVEL_ONE` is stored as
//! written (reads give it back exactly) but clamped to `LEVEL_ONE`
//! wherever the level is computed, so the level invariant holds for every
//! input.

use vstd::prelude::*;

use crate::units::LEVEL_ONE;
use crate::units::NANOS_PER_SEC;
use crate::units::STAGE_NS_CAP;
use crate::units::STAGE_US_CAP;

verus! {

#[derive(Clone, Copy, Debug, PartialEq, Eq, Structural)]
pub enum EnvelopeState {
    Idle,
    Attack,
    Decay,
    Sustain,
    Release,
}

/// Effective length of a stage in nanoseconds: the microsecond tunable
/// times 1000, saturating at `STAGE_NS_CAP` so that stage arithmetic
/// stays inside `u64`.
pub open spec fn stage_nanos_spec(t_us: int) -> int {
    if t_us >= STAGE_US_CAP {
        STAGE_NS_CAP as int
    } else {
        t_us * 1000
    }
}

/// Nanoseconds one processed sample advances the clock: `1 / sample_rate`
/// seconds, rounded down.
pub open spec fn step_nanos(sample_rate: int) -> int {
    NANOS_PER_SEC as int / sample_rate
}

/// Level while attacking, `elapsed` nanoseconds into a stage of `at_ns`
/// nanoseconds: a linear ramp from 0 up to `LEVEL_ONE`.
pub open spec fn attack_level(elapsed: int, at_ns: int) -> int {
    elapsed * LEVEL_ONE / at_ns
}

/// Level while decaying towards `sus`: a linear ramp from `LEVEL_ONE`
/// down to `sus`.
pub open spec fn decay_level(elapsed: int, dec_ns: int, sus: int) -> int {
    sus + (LEVEL_ONE - sus) * (dec_ns - elapsed) / dec_ns
}

/// Level while releasing from `start`: a linear ramp from `start` down
/// to 0.
pub open spec fn release_level(elapsed: int, rel_ns: int, start: int) -> int {
    start * (rel_ns - elapsed) / rel_ns
}

pub struct EnvelopeGenerator {
    /// Current phase of the state machine.
    pub state: EnvelopeState,
    /// Nanoseconds spent in the current phase.
    pub elapsed_ns: u64,
    /// Level the envelope currently holds, in micro-units.
    pub level: u32,
    /// Level held when the current release began, in micro-units.
    pub release_start: u32,
    /// Attack stage length, in microseconds.
    pub attack_time: u64,
    /// Decay stage length, in microseconds.
    pub decay_time: u64,
    /// Sustain level, in micro-units; stored as written, clamped to
    /// `LEVEL_ONE` when the level is computed.
    pub sustain_val: u64,
    /// Release stage length, in microseconds.
    pub release_time: u64,
}

impl EnvelopeGenerator {
    /// Well-formedness: the level and the release start level sit inside
    /// `[0, LEVEL_ONE]`, the phase clock inside the longest effective
    /// stage, and an idle envelope is silent.
    pub open spec fn wf(&self) -> bool {
        &&& self.level <= LEVEL_ONE
        &&& self.release_start <= LEVEL_ONE
        &&& self.elapsed_ns <= STAGE_NS_CAP
        &&& (self.state is Idle ==> self.level == 0)
    }

    /// The sustain tunable as a level: clamped to `LEVEL_ONE`.
    pub open spec fn sustain_clamped(self) -> int {
        if self.sustain_val >= LEVEL_ONE {
            LEVEL_ONE as int
        } else {
            self.sustain_val as int
        }
    }

    /// The generator after `set_state`.
    ///
    /// Forcing `Attack` restarts the envelope from level zero whatever
    /// the current state (retriggering). Forcing `Release` begins the
    /// release ramp from whatever level the envelope currently holds,
    /// except on an idle envelope, where it is a no-op. The remaining
    /// states enter at their ramp's starting level.
    pub open spec fn after_set_state(self, s: EnvelopeState) -> EnvelopeGenerator {
        match s {
            EnvelopeState::Idle => EnvelopeGenerator { state: EnvelopeState::Idle, elapsed_ns: 0, level: 0, ..self },
            EnvelopeState::Attack => EnvelopeGenerator {
                state: EnvelopeState::Attack,
                elapsed_ns: 0,
                level: 0,
                ..self
            },
            EnvelopeState::Decay => EnvelopeGenerator {
                state: EnvelopeState::Decay,
                elapsed_ns: 0,
                level: LEVEL_ONE,
                ..self
            },
            EnvelopeState::Sustain => EnvelopeGenerator {
                state: EnvelopeState::Sustain,
                elapsed_ns: 0,
                level: self.sustain_clamped() as u32,
                ..self
            },
            EnvelopeState::Release => if self.state is Idle {
                self
            } else {
                EnvelopeGenerator {
                    state: EnvelopeState::Release,
                    elapsed_ns: 0,
                    release_start: self.level,
                    ..self
                }
            },
        }
    }

    /// The generator after one `process` call at `sample_rate`: the
    /// clock advances by `step_nanos`; a stage whose effective length is
    /// reached hands over to the next stage (an attack whose decay stage
    /// is empty falls through to sustain in the same call); otherwise the
    /// level follows the stage's linear ramp. A zero sample rate changes
    /// nothing.
    pub open spec fn after_process(self, sample_rate: int) -> EnvelopeGenerator {
        if sample_rate <= 0 {
            self
        } else {
            let e2 = self.elapsed_ns + step_nanos(sample_rate);
            match self.state {
                EnvelopeState::Idle => self,
                EnvelopeState::Sustain => EnvelopeGenerator {
                    level: self.sustain_clamped() as u32,
                    ..self
                },
                EnvelopeState::Attack => {
                    let at = stage_nanos_spec(self.attack_time as int);
                    if e2 >= at {
                        if stage_nanos_spec(self.decay_time as int) == 0 {
                            EnvelopeGenerator {
                                state: EnvelopeState::Sustain,
                                elapsed_ns: 0,
                                level: self.sustain_clamped() as u32,
                                ..self
                            }
                        } else {
                            EnvelopeGenerator {
                                state: EnvelopeState::Decay,
                                elapsed_ns: 0,
                                level: LEVEL_ONE,
                                ..self
                            }
                        }
                    } else {
                        EnvelopeGenerator {
                            elapsed_ns: e2 as u64,
                            level: attack_level(e2, at) as u32,
                            ..self
                        }
                    }
                },
                EnvelopeState::Decay => {
                    let dec = stage_nanos_spec(self.decay_time as int);
                    if e2 >= dec {
                        EnvelopeGenerator {
                            state: EnvelopeState::Sustain,
                            elapsed_ns: 0,
                            level: self.sustain_clamped() as u32,
                            ..self
                        }
                    } else {
                        EnvelopeGenerator {
                            elapsed_ns: e2 as u64,
                            level: decay_level(e2, dec, self.sustain_clamped()) as u32,
                            ..self
                        }
                    }
                },
                EnvelopeState::Release => {
                    let rel = stage_nanos_spec(self.release_time as int);
                    if e2 >= rel {
                        EnvelopeGenerator {
                            state: EnvelopeState::Idle,
                            elapsed_ns: 0,
                            level: 0,
                            ..self
                        }
                    } else {
                        EnvelopeGenerator {
                            elapsed_ns: e2 as u64,
                            level: release_level(e2, rel, self.release_start as int) as u32,
                            ..self
                        }
                    }
                },
            }
        }
    }

    /// A fresh, idle, silent envelope: empty attack, decay and release
    /// stages and full sustain, so a note sounds at full level until
    /// released.
    pub fn new() -> (env: EnvelopeGenerator)
        ensures
            env.wf(),
            env.state is Idle,
            env.elapsed_ns == 0,
            env.level == 0,
            env.release_start == 0,
            env.attack_time == 0,
            env.decay_time == 0,
            env.sustain_val == LEVEL_ONE,
            env.release_time == 0,
    {
        EnvelopeGenerator {
            state: EnvelopeState::Idle,
            elapsed_ns: 0,
            level: 0,
            release_start: 0,
            attack_time: 0,
            decay_time: 0,
            sustain_val: LEVEL_ONE as u64,
            release_time: 0,
        }
    }

    /// Forces the state machine into `state`; see `after_set_state`.
    pub fn set_state(&mut self, state: EnvelopeState)
        requires
            old(self).wf(),
        ensures
            final(self).wf(),
            *final(self) == old(self).after_set_state(state),
    {
        match state {
            EnvelopeState::Idle => {
                self.state = EnvelopeState::Idle;
                self.elapsed_ns = 0;
                self.level = 0;
            },
            EnvelopeState::Attack => {
                self.state = EnvelopeState::Attack;
                self.elapsed_ns = 0;
                self.level = 0;
            },
            EnvelopeState::Decay => {
                self.state = EnvelopeState::Decay;
                self.elapsed_ns = 0;
                self.level = LEVEL_ONE;
            },
            EnvelopeState::Sustain => {
                self.state = EnvelopeState::Sustain;
                self.elapsed_ns = 0;
                self.level = self.sustain_level();
            },
            EnvelopeState::Release => {
                if !matches!(self.state, EnvelopeState::Idle) {
                    self.state = EnvelopeState::Release;
                    self.elapsed_ns = 0;
                    self.release_start = self.level;
                }
            },
        }
    }

    /// Advances the clock by `1 / sample_rate` seconds and returns the
    /// level after applying the current phase's ramp; see `after_process`.
    /// A zero sample rate is rejected defensively: nothing advances and
    /// the current level is returned.
    pub fn process(&mut self, sample_rate: u32) -> (level: u32)
        requires
            old(self).wf(),
        ensures
            final(self).wf(),
            *final(self) == old(self).after_process(sample_rate as int),
            level == final(self).level,
            level <= LEVEL_ONE,
    {
        if sample_rate == 0 {
            return self.level;
        }
        let dt: u64 = NANOS_PER_SEC / (sample_rate as u64);
        match self.state {
            EnvelopeState::Idle => {},
            EnvelopeState::Sustain => {
                self.level = self.sustain_level();
            },
            EnvelopeState::Attack => {
                let e2: u64 = self.elapsed_ns + dt;
                let at: u64 = stage_nanos(self.attack_time);
                if e2 >= at {
                    if stage_nanos(self.decay_time) == 0 {
                        self.state = EnvelopeState::Sustain;
                        self.elapsed_ns = 0;
                        self.level = self.sustain_level();
                    } else {
                        self.state = EnvelopeState::Decay;
                        self.elapsed_ns = 0;
                        self.level = LEVEL_ONE;
                    }
                } else {
                    proof {
                        lemma_attack_level_bound(e2 as int, at as int);
                    }
                    let lvl: u32 = ((e2 as u128 * LEVEL_ONE as u128) / (at as u128)) as u32;
                    self.elapsed_ns = e2;
                    self.level = lvl;
                }
            },
            EnvelopeState::Decay => {
                let e2: u64 = self.elapsed_ns + dt;
                let dec: u64 = stage_nanos(self.decay_time);
                if e2 >= dec {
                    self.state = EnvelopeState::Sustain;
                    self.elapsed_ns = 0;
                    self.level = self.sustain_level();
                } else {
                    let sus: u32 = self.sustain_level();
                    proof {
                        lemma_decay_level_bound(e2 as int, dec as int, sus as int);
                        assert((LEVEL_ONE - sus) * (dec - e2) <= 1_000_000 * STAGE_NS_CAP)
                            by (nonlinear_arith)
                            requires
                                0 <= LEVEL_ONE - sus <= 1_000_000,
                                0 <= dec - e2 <= STAGE_NS_CAP,
                        ;
                    }
                    let lvl: u32 = sus + (((LEVEL_ONE - sus) as u128 * (dec - e2) as u128) / (
                    dec as u128)) as u32;
                    self.elapsed_ns = e2;
                    self.level = lvl;
                }
            },
            EnvelopeState::Release => {
                let e2: u64 = self.elapsed_ns + dt;
                let rel: u64 = stage_nanos(self.release_time);
                if e2 >= rel {
                    self.state = EnvelopeState::Idle;
                    self.elapsed_ns = 0;
                    self.level = 0;
                } else {
                    proof {
                        lemma_release_level_bound(e2 as int, rel as int, self.release_start as int);
                        assert(self.release_start * (rel - e2) <= 1_000_000 * STAGE_NS_CAP)
                            by (nonlinear_arith)
                            requires
                                0 <= self.release_start <= 1_000_000,
                                0 <= rel - e2 <= STAGE_NS_CAP,
                        ;
                    }
                    let lvl: u32 = ((self.release_start as u128 * (rel - e2) as u128) / (
                    rel as u128)) as u32;
                    self.elapsed_ns = e2;
                    self.level = lvl;
                }
            },
        }
        self.level
    }

    /// The sustain tunable clamped to a valid level.
    fn sustain_level(&self) -> (sus: u32)
        ensures
            sus == self.sustain_clamped(),
            sus <= LEVEL_ONE,
    {
        if self.sustain_val >= LEVEL_ONE as u64 {
            LEVEL_ONE
        } else {
            self.sustain_val as u32
        }
    }
}

/// Exec mirror of `stage_nanos_spec`.
fn stage_nanos(t_us: u64) -> (ns: u64)
    ensures
        ns == stage_nanos_spec(t_us as int),
        ns <= STAGE_NS_CAP,
{
    if t_us >= STAGE_US_CAP {
        STAGE_NS_CAP
    } else {
        t_us * 1000
    }
}

/// An attack ramp strictly inside its stage stays strictly under full
/// level.
proof fn lemma_attack_level_bound(elapsed: int, at_ns: int)
    requires
        0 <= elapsed < at_ns,
    ensures
        0 <= attack_level(elapsed, at_ns) < LEVEL_ONE,
{
    vstd::arithmetic::mul::lemma_mul_strict_inequality(elapsed, at_ns, LEVEL_ONE as int);
    vstd::arithmetic::mul::lemma_mul_is_commutative(at_ns, LEVEL_ONE as int);
    vstd::arithmetic::div_mod::lemma_multiply_divide_lt(
        elapsed * LEVEL_ONE,
        at_ns,
        LEVEL_ONE as int,
    );
    vstd::arithmetic::mul::lemma_mul_nonnegative(elapsed, LEVEL_ONE as int);
    vstd::arithmetic::div_mod::lemma_div_pos_is_pos(elapsed * LEVEL_ONE, at_ns);
}

/// A decay ramp strictly inside its stage stays between the sustain level
/// and full level.
proof fn lemma_decay_level_bound(elapsed: int, dec_ns: int, sus: int)
    requires
        0 <= elapsed < dec_ns,
        0 <= sus <= LEVEL_ONE,
    ensures
        sus <= decay_level(elapsed, dec_ns, sus) <= LEVEL_ONE,
{
    let drop = LEVEL_ONE - sus;
    let left = dec_ns - elapsed;
    vstd::arithmetic::mul::lemma_mul_inequality(left, dec_ns, drop);
    vstd::arithmetic::mul::lemma_mul_is_commutative(dec_ns, drop);
    vstd::arithmetic::div_mod::lemma_multiply_divide_le(drop * left, dec_ns, drop);
    vstd::arithmetic::mul::lemma_mul_nonnegative(drop, left);
    vstd::arithmetic::div_mod::lemma_div_pos_is_pos(drop * left, dec_ns);
}

/// A release ramp strictly inside its stage stays between zero and the
/// level it started from.
proof fn lemma_release_level_bound(elapsed: int, rel_ns: int, start: int)
    requires
        0 <= elapsed < rel_ns,
        0 <= start,
    ensures
        0 <= release_level(elapsed, rel_ns, start) <= start,
{
    let left = rel_ns - elapsed;
    vstd::arithmetic::mul::lemma_mul_inequality(left, rel_ns, start);
    vstd::arithmetic::mul::lemma_mul_is_commutative(rel_ns, start);
    vstd::arithmetic::mul::lemma_mul_is_commutative(start, left);
    vstd::arithmetic::div_mod::lemma_multiply_divide_le(start * left, rel_ns, start);
    vstd::arithmetic::mul::lemma_mul_nonnegative(start, left);
    vstd::arithmetic::div_mod::lemma_div_pos_is_pos(start * left, rel_ns);
}

/// The envelope level is always in `[0, LEVEL_ONE]`: a well-formed
/// generator stays well-formed under `set_state` (so under `note_on` and
/// `note_off`) and under `process`, and well-formedness bounds the level.
/// Hence any sequence of such calls started from `new` keeps the level in
/// range.
pub proof fn lemma_level_always_in_range(e: EnvelopeGenerator, s: EnvelopeState, sample_rate: int)
    requires
        e.wf(),
    ensures
        0 <= e.level <= LEVEL_ONE,
        e.after_set_state(s).wf(),
        e.after_process(sample_rate).wf(),
        e.after_process(sample_rate).level <= LEVEL_ONE,
{
    if sample_rate > 0 {
        let e2 = e.elapsed_ns + step_nanos(sample_rate);
        vstd::arithmetic::div_mod::lemma_div_pos_is_pos(NANOS_PER_SEC as int, sample_rate);
        match e.state {
            EnvelopeState::Attack => {
                let at = stage_nanos_spec(e.attack_time as int);
                if e2 < at {
                    lemma_attack_level_bound(e2, at);
                }
            },
            EnvelopeState::Decay => {
                let dec = stage_nanos_spec(e.decay_time as int);
                if e2 < dec {
                    lemma_decay_level_bound(e2, dec, e.sustain_clamped());
                }
            },
            EnvelopeState::Release => {
                let rel = stage_nanos_spec(e.release_time as int);
                if e2 < rel {
                    lemma_release_level_bound(e2, rel, e.release_start as int);
                }
            },
            _ => {},
        }
    }
}

/// Release always begins from the level the envelope holds at that
/// instant: forcing `Release` records the current level as the ramp's
/// start. In particular, right after a retrigger the envelope holds level
/// zero, so `note_on` immediately followed by `note_off` releases from
/// zero, not from full level. On an idle envelope, forcing `Release` is a
/// no-op.
pub proof fn lemma_release_starts_from_current_level(e: EnvelopeGenerator)
    requires
        e.wf(),
    ensures
        !(e.state is Idle) ==> e.after_set_state(EnvelopeState::Release).release_start == e.level,
        !(e.state is Idle) ==> e.after_set_state(EnvelopeState::Release).level == e.level,
        e.state is Idle ==> e.after_set_state(EnvelopeState::Release) == e,
        e.after_set_state(EnvelopeState::Attack).after_set_state(
            EnvelopeState::Release,
        ).release_start == e.after_set_state(EnvelopeState::Attack).level,
        e.after_set_state(EnvelopeState::Attack).level == 0,
{
}

/// With empty attack, decay and release stages, the envelope reaches the
/// target of its current ramp within a single `process` call: an attack
/// (or decay) lands in sustain at the sustain level, and a release lands
/// in idle at level zero.
pub proof fn lemma_zero_times_reach_target_in_one_step(e: EnvelopeGenerator, sample_rate: int)
    requires
        e.wf(),
        e.attack_time == 0,
        e.decay_time == 0,
        e.release_time == 0,
        1 <= sample_rate <= NANOS_PER_SEC,
    ensures
        e.state is Attack ==> e.after_process(sample_rate).state is Sustain
            && e.after_process(sample_rate).level == e.sustain_clamped(),
        e.state is Decay ==> e.after_process(sample_rate).state is Sustain
            && e.after_process(sample_rate).level == e.sustain_clamped(),
        e.state is Release ==> e.after_process(sample_rate).state is Idle && e.after_process(
            sample_rate,
        ).level == 0,
{
    assert(NANOS_PER_SEC as int / sample_rate >= 1) by (nonlinear_arith)
        requires
            1 <= sample_rate <= NANOS_PER_SEC,
    ;
}

} // verus!
