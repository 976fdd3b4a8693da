//! Signal-generation core of a monophonic, retro-style synthesizer voice:
//! a square-wave oscillator driven by a pitch, shaped by an
//! attack/decay/sustain/release envelope, scaled by a master volume, and
//! mixed to a stereo pair.
//!
//! All per-sample math is fixed-point so that every function can carry a
//! proved contract:
//! - amplitudes and envelope levels in micro-units (`LEVEL_ONE` = one),
//! - frequencies in milli-hertz,
//! - oscillator phase in nanocycles (`PHASE_SCALE` = one full cycle),
//! - envelope stage times in microseconds,
//! - sample rates in whole hertz.

mod envelope;
mod instrument;
mod oscillator;
mod params;
mod units;

pub use envelope::EnvelopeGenerator;
pub use envelope::EnvelopeState;
pub use instrument::GameBoyInstrument;
pub use instrument::Signal;
pub use oscillator::SquareWaveOscillator;
pub use params::Parameter;
pub use params::Parametric;
pub use units::FREQ_MAX_MILLIHZ;
pub use units::FREQ_MIN_MILLIHZ;
pub use units::LEVEL_ONE;
pub use units::NANOS_PER_SEC;
pub use units::PHASE_SCALE;
pub use units::STAGE_NS_CAP;
pub use units::STAGE_US_CAP;
