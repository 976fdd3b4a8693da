//! Fixed-point units shared by the oscillator, the envelope generator and
//! the instrument.

use vstd::prelude::*;

verus! {

/// One full amplitude or envelope level, in micro-units.
pub const LEVEL_ONE: u32 = 1_000_000;

/// One full oscillator cycle, in nanocycles of phase.
pub const PHASE_SCALE: u64 = 1_000_000_000;

/// One second, in nanoseconds.
pub const NANOS_PER_SEC: u64 = 1_000_000_000;

/// Lowest frequency a pitch can map to, in milli-hertz.
pub const FREQ_MIN_MILLIHZ: u64 = 1;

/// Highest frequency a pitch can map to, in milli-hertz (20 MHz).
pub const FREQ_MAX_MILLIHZ: u64 = 20_000_000_000;

/// An envelope stage time at or above this many microseconds is treated as
/// `STAGE_NS_CAP` nanoseconds, so that stage arithmetic never overflows.
pub const STAGE_US_CAP: u64 = 1_000_000_000_000;

/// Longest effective envelope stage, in nanoseconds (about 11.6 days).
pub const STAGE_NS_CAP: u64 = 1_000_000_000_000_000;

} // verus!
