//! The instrument (voice): one square-wave oscillator, one envelope
//! generator and a master-volume scalar. Each processed sample multiplies
//! the oscillator sample, the envelope level and the master volume and
//! emits the same value on both output channels (centered mono presented
//! as a stereo pair).

use vstd::prelude::*;

use crate::envelope::EnvelopeGenerator;
use crate::envelope::EnvelopeState;
use crate::oscillator::SquareWaveOscillator;
use crate::oscillator::freq_of_pitch;
use crate::params::Parameter;
use crate::params::Parametric;
use crate::units::FREQ_MIN_MILLIHZ;
use crate::units::LEVEL_ONE;

verus! {

/// One mono sample presented as a stereo (left, right) pair, in
/// micro-units of amplitude.
pub type Signal = (i64, i64);

/// The mono sample mixed from an oscillator sample (`-LEVEL_ONE`, 0 or
/// `+LEVEL_ONE`), an envelope level in `[0, LEVEL_ONE]` and a raw master
/// volume in micro-units: `osc * level * volume` scaled back to
/// micro-units, saturating at `i64::MAX` in magnitude.
pub open spec fn mixed_sample(osc: int, level: int, volume: int) -> int {
    let mag = level * volume / (LEVEL_ONE as int);
    let sat = if mag > i64::MAX {
        i64::MAX as int
    } else {
        mag
    };
    if osc > 0 {
        sat
    } else if osc < 0 {
        -sat
    } else {
        0
    }
}

pub struct GameBoyInstrument {
    /// The voice's oscillator.
    pub square_osc: SquareWaveOscillator,
    /// The voice's envelope generator.
    pub envelope_gen: EnvelopeGenerator,
    /// Unitless gain in micro-units (`LEVEL_ONE` = unity); stored as
    /// written, not clamped.
    pub master_volume: u64,
}

impl GameBoyInstrument {
    /// Well-formedness: both owned components are well-formed.
    pub open spec fn wf(&self) -> bool {
        &&& self.square_osc.wf()
        &&& self.envelope_gen.wf()
    }

    /// The tunable a parameter addresses: master volume on the
    /// instrument, the four envelope tunables on the envelope generator.
    pub open spec fn param_value(self, p: Parameter) -> u64 {
        match p {
            Parameter::MasterVolume => self.master_volume,
            Parameter::AttackTime => self.envelope_gen.attack_time,
            Parameter::DecayTime => self.envelope_gen.decay_time,
            Parameter::Sustain => self.envelope_gen.sustain_val,
            Parameter::ReleaseTime => self.envelope_gen.release_time,
        }
    }

    /// The instrument with the addressed tunable replaced by `value`,
    /// everything else untouched; no clamping, no unit conversion.
    pub open spec fn with_param(self, p: Parameter, value: u64) -> GameBoyInstrument {
        match p {
            Parameter::MasterVolume => GameBoyInstrument { master_volume: value, ..self },
            Parameter::AttackTime => GameBoyInstrument {
                envelope_gen: EnvelopeGenerator { attack_time: value, ..self.envelope_gen },
                ..self
            },
            Parameter::DecayTime => GameBoyInstrument {
                envelope_gen: EnvelopeGenerator { decay_time: value, ..self.envelope_gen },
                ..self
            },
            Parameter::Sustain => GameBoyInstrument {
                envelope_gen: EnvelopeGenerator { sustain_val: value, ..self.envelope_gen },
                ..self
            },
            Parameter::ReleaseTime => GameBoyInstrument {
                envelope_gen: EnvelopeGenerator { release_time: value, ..self.envelope_gen },
                ..self
            },
        }
    }

    /// A fresh voice: oscillator at phase zero with no pitch yet, idle
    /// envelope, master volume at unity.
    pub fn new() -> (inst: GameBoyInstrument)
        ensures
            inst.wf(),
            inst.square_osc.phase == 0,
            inst.square_osc.freq_millihz == 0,
            inst.envelope_gen.state is Idle,
            inst.envelope_gen.level == 0,
            inst.envelope_gen.attack_time == 0,
            inst.envelope_gen.decay_time == 0,
            inst.envelope_gen.sustain_val == LEVEL_ONE,
            inst.envelope_gen.release_time == 0,
            inst.master_volume == LEVEL_ONE,
    {
        GameBoyInstrument {
            square_osc: SquareWaveOscillator::new(),
            envelope_gen: EnvelopeGenerator::new(),
            master_volume: LEVEL_ONE as u64,
        }
    }

    /// Sets the oscillator pitch and retriggers the envelope from Attack.
    pub fn note_on(&mut self, pitch: i16)
        requires
            old(self).wf(),
        ensures
            final(self).wf(),
            final(self).square_osc.freq_millihz == freq_of_pitch(pitch as int),
            final(self).square_osc.freq_millihz >= FREQ_MIN_MILLIHZ,
            final(self).square_osc.phase == old(self).square_osc.phase,
            final(self).envelope_gen == old(self).envelope_gen.after_set_state(
                EnvelopeState::Attack,
            ),
            final(self).master_volume == old(self).master_volume,
    {
        self.square_osc.set_pitch(pitch);
        self.envelope_gen.set_state(EnvelopeState::Attack);
    }

    /// Forces the envelope into Release; the oscillator and the master
    /// volume are untouched. On an idle voice this is a no-op.
    pub fn note_off(&mut self)
        requires
            old(self).wf(),
        ensures
            final(self).wf(),
            final(self).square_osc == old(self).square_osc,
            final(self).envelope_gen == old(self).envelope_gen.after_set_state(
                EnvelopeState::Release,
            ),
            final(self).master_volume == old(self).master_volume,
            old(self).envelope_gen.state is Idle ==> *final(self) == *old(self),
    {
        self.envelope_gen.set_state(EnvelopeState::Release);
    }

    /// The per-sample audio callback: advances both components once and
    /// returns the mixed sample on both channels. Processing is the only
    /// way time advances for either component.
    pub fn process(&mut self, sample_rate: u32) -> (out: Signal)
        requires
            old(self).wf(),
        ensures
            final(self).wf(),
            final(self).square_osc == old(self).square_osc.after_process(sample_rate as int),
            final(self).envelope_gen == old(self).envelope_gen.after_process(sample_rate as int),
            final(self).master_volume == old(self).master_volume,
            out.0 == out.1,
            out.0 == mixed_sample(
                old(self).square_osc.process_output(sample_rate as int),
                final(self).envelope_gen.level as int,
                old(self).master_volume as int,
            ),
    {
        let osc: i64 = self.square_osc.process(sample_rate);
        let env: u32 = self.envelope_gen.process(sample_rate);
        proof {
            assert(env * self.master_volume <= 1_000_000 * u64::MAX) by (nonlinear_arith)
                requires
                    0 <= env <= 1_000_000,
                    0 <= self.master_volume <= u64::MAX,
            ;
        }
        let mag128: u128 = (env as u128) * (self.master_volume as u128) / (LEVEL_ONE as u128);
        let mag: i64 = if mag128 > i64::MAX as u128 {
            i64::MAX
        } else {
            mag128 as i64
        };
        let sig: i64 = if osc > 0 {
            mag
        } else if osc < 0 {
            -mag
        } else {
            0
        };
        (sig, sig)
    }
}

impl Parametric<Parameter> for GameBoyInstrument {
    fn set_param(&mut self, param: &Parameter, value: u64) {
        GameBoyInstrument::set_param(self, param, value)
    }

    fn get_param(&self, param: &Parameter) -> u64 {
        GameBoyInstrument::get_param(self, param)
    }
}

impl GameBoyInstrument {
    /// Writes the addressed tunable; see `with_param`.
    pub fn set_param(&mut self, param: &Parameter, value: u64)
        ensures
            *final(self) == old(self).with_param(*param, value),
            old(self).wf() ==> final(self).wf(),
    {
        match *param {
            Parameter::MasterVolume => self.master_volume = value,
            Parameter::AttackTime => self.envelope_gen.attack_time = value,
            Parameter::DecayTime => self.envelope_gen.decay_time = value,
            Parameter::Sustain => self.envelope_gen.sustain_val = value,
            Parameter::ReleaseTime => self.envelope_gen.release_time = value,
        }
    }

    /// Reads the addressed tunable back, exactly as written.
    pub fn get_param(&self, param: &Parameter) -> (value: u64)
        ensures
            value == self.param_value(*param),
    {
        match *param {
            Parameter::MasterVolume => self.master_volume,
            Parameter::AttackTime => self.envelope_gen.attack_time,
            Parameter::DecayTime => self.envelope_gen.decay_time,
            Parameter::Sustain => self.envelope_gen.sustain_val,
            Parameter::ReleaseTime => self.envelope_gen.release_time,
        }
    }
}

/// Writing any parameter and reading the same parameter back gives the
/// written value exactly, and disturbs no other parameter.
pub proof fn lemma_param_round_trip(inst: GameBoyInstrument, p: Parameter, value: u64)
    ensures
        inst.with_param(p, value).param_value(p) == value,
        forall|q: Parameter|
            q != p ==> #[trigger] inst.with_param(p, value).param_value(q) == inst.param_value(q),
{
}

} // verus!
