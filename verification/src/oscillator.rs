//! Square-wave oscillator: a phase accumulator in nanocycles that wraps
//! every `PHASE_SCALE`, advanced once per processed sample, emitting
//! `+LEVEL_ONE` over the first half of the cycle and `-LEVEL_ONE` over the
//! second (fixed 50% duty cycle).
//!
//! Pitch-to-frequency mapping: a pitch is a signed semitone index with
//! reference A4 = 440 Hz at pitch 69 (equal temperament). The frequency in
//! milli-hertz is the tabulated equal-tempered value for the semitone
//! within the reference octave, doubled once per octave above it and halved
//! (integer division) once per octave below it. The result saturates at
//! `FREQ_MIN_MILLIHZ` from below (from 20 octaves down, everything maps to
//! the floor) and at `FREQ_MAX_MILLIHZ` from above (15 octaves up or more).

use vstd::prelude::*;

use crate::units::FREQ_MAX_MILLIHZ;
use crate::units::FREQ_MIN_MILLIHZ;
use crate::units::LEVEL_ONE;
use crate::units::PHASE_SCALE;

verus! {

/// Equal-tempered frequency of semitone `r` of the reference octave
/// (pitch `69 + r`), in milli-hertz: `440000 * 2^(r/12)`, rounded to the
/// nearest milli-hertz.
pub open spec fn semitone_millihz(r: int) -> int {
    if r == 0 {
        440000
    } else if r == 1 {
        466164
    } else if r == 2 {
        493883
    } else if r == 3 {
        523251
    } else if r == 4 {
        554365
    } else if r == 5 {
        587330
    } else if r == 6 {
        622254
    } else if r == 7 {
        659255
    } else if r == 8 {
        698456
    } else if r == 9 {
        739989
    } else if r == 10 {
        783991
    } else {
        830609
    }
}

/// `2^k` for the small exponents the octave shift needs (`0 <= k <= 19`).
pub open spec fn pow2_small(k: int) -> int {
    if k <= 0 {
        1
    } else if k == 1 {
        2
    } else if k == 2 {
        4
    } else if k == 3 {
        8
    } else if k == 4 {
        16
    } else if k == 5 {
        32
    } else if k == 6 {
        64
    } else if k == 7 {
        128
    } else if k == 8 {
        256
    } else if k == 9 {
        512
    } else if k == 10 {
        1024
    } else if k == 11 {
        2048
    } else if k == 12 {
        4096
    } else if k == 13 {
        8192
    } else if k == 14 {
        16384
    } else if k == 15 {
        32768
    } else if k == 16 {
        65536
    } else if k == 17 {
        131072
    } else if k == 18 {
        262144
    } else {
        524288
    }
}

/// The documented pitch-to-frequency mapping, in milli-hertz.
pub open spec fn freq_of_pitch(pitch: int) -> int {
    let d = pitch - 69;
    let oct = d / 12;
    let base = semitone_millihz(d % 12);
    if oct >= 15 {
        FREQ_MAX_MILLIHZ as int
    } else if oct >= 0 {
        base * pow2_small(oct)
    } else if oct <= -20 {
        FREQ_MIN_MILLIHZ as int
    } else if base / pow2_small(-oct) < FREQ_MIN_MILLIHZ {
        FREQ_MIN_MILLIHZ as int
    } else {
        base / pow2_small(-oct)
    }
}

/// Nanocycles of phase one processed sample advances: `freq / sample_rate`
/// cycles, in fixed point, rounded down.
pub open spec fn phase_increment(freq_millihz: int, sample_rate: int) -> int {
    freq_millihz * 1_000_000 / sample_rate
}

/// Output for a wrapped phase: `+LEVEL_ONE` on the first half of the
/// cycle, `-LEVEL_ONE` on the second.
pub open spec fn square_level(phase: int) -> int {
    if phase < PHASE_SCALE / 2 {
        LEVEL_ONE as int
    } else {
        -(LEVEL_ONE as int)
    }
}

pub struct SquareWaveOscillator {
    /// Position within the current cycle, in nanocycles; always below
    /// `PHASE_SCALE`.
    pub phase: u64,
    /// Frequency recorded by the last `set_pitch`, in milli-hertz;
    /// zero until a pitch has been set, strictly positive afterwards.
    pub freq_millihz: u64,
}

impl SquareWaveOscillator {
    /// Well-formedness: the phase sits inside one cycle and the frequency
    /// inside the saturation range (or is still the initial zero).
    pub open spec fn wf(&self) -> bool {
        &&& self.phase < PHASE_SCALE
        &&& self.freq_millihz <= FREQ_MAX_MILLIHZ
    }

    /// The oscillator after one `process` call: the phase advanced by
    /// `phase_increment` and wrapped, or everything unchanged when the
    /// sample rate is zero.
    pub open spec fn after_process(self, sample_rate: int) -> SquareWaveOscillator {
        if sample_rate <= 0 {
            self
        } else {
            SquareWaveOscillator {
                phase: ((self.phase + phase_increment(self.freq_millihz as int, sample_rate)) % (
                PHASE_SCALE as int)) as u64,
                freq_millihz: self.freq_millihz,
            }
        }
    }

    /// The sample one `process` call returns: the square level of the
    /// advanced phase, or the defensive zero when the sample rate is zero.
    pub open spec fn process_output(self, sample_rate: int) -> int {
        if sample_rate <= 0 {
            0
        } else {
            square_level(self.after_process(sample_rate).phase as int)
        }
    }

    pub fn new() -> (osc: SquareWaveOscillator)
        ensures
            osc.wf(),
            osc.phase == 0,
            osc.freq_millihz == 0,
    {
        SquareWaveOscillator { phase: 0, freq_millihz: 0 }
    }

    /// Records the frequency of `pitch`; it takes effect on the next
    /// sample, the phase is not disturbed.
    pub fn set_pitch(&mut self, pitch: i16)
        requires
            old(self).wf(),
        ensures
            final(self).wf(),
            final(self).freq_millihz == freq_of_pitch(pitch as int),
            final(self).freq_millihz >= FREQ_MIN_MILLIHZ,
            final(self).phase == old(self).phase,
    {
        // Shift the semitone distance from A4 by a multiple of 12 so that
        // octave and semitone come out of unsigned division: with
        // m == (pitch - 69) + 12 * 2737, the octave is m / 12 - 2737 and
        // the semitone within the octave is m % 12.
        let m: u32 = (pitch as i32 + 32775) as u32;
        let q: u32 = m / 12;
        let r: u32 = m % 12;
        proof {
            let d = pitch as int - 69;
            vstd::arithmetic::div_mod::lemma_hoist_over_denominator(d, 2737, 12nat);
            vstd::arithmetic::div_mod::lemma_mod_multiples_vanish(2737, d, 12);
            assert(q == d / 12 + 2737);
            assert(r == d % 12);
        }
        let base: u64 = semitone_table(r);
        let freq: u64 = if q >= 2752 {
            // 15 octaves or more above the reference: saturate.
            FREQ_MAX_MILLIHZ
        } else if q >= 2737 {
            let mult: u64 = pow2_table(q - 2737);
            assert(base * mult <= 830_609 * 16384) by (nonlinear_arith)
                requires
                    0 <= base <= 830_609,
                    0 <= mult <= 16384,
            ;
            base * mult
        } else if q <= 2717 {
            // 20 octaves or more below the reference: saturate.
            FREQ_MIN_MILLIHZ
        } else {
            let divisor: u64 = pow2_table(2737 - q);
            let f: u64 = base / divisor;
            if f < FREQ_MIN_MILLIHZ {
                FREQ_MIN_MILLIHZ
            } else {
                f
            }
        };
        self.freq_millihz = freq;
    }

    /// Advances the phase by `frequency / sample_rate` of a cycle
    /// (wrapping) and returns the square-wave sample for the new phase.
    /// A zero sample rate is rejected defensively: nothing advances and
    /// the sample is zero.
    pub fn process(&mut self, sample_rate: u32) -> (s: i64)
        requires
            old(self).wf(),
        ensures
            final(self).wf(),
            *final(self) == old(self).after_process(sample_rate as int),
            s == old(self).process_output(sample_rate as int),
    {
        if sample_rate == 0 {
            return 0;
        }
        let inc: u64 = self.freq_millihz * 1_000_000 / (sample_rate as u64);
        self.phase = (self.phase + inc) % PHASE_SCALE;
        if self.phase < PHASE_SCALE / 2 {
            LEVEL_ONE as i64
        } else {
            -(LEVEL_ONE as i64)
        }
    }
}

/// The phase after `n` further `process` calls, starting from phase
/// `start`, with a fixed per-sample increment `inc` (a fixed pitch and a
/// fixed positive sample rate).
pub open spec fn phase_after_steps(start: int, inc: int, n: nat) -> int
    decreases n,
{
    if n == 0 {
        start
    } else {
        (phase_after_steps(start, inc, (n - 1) as nat) + inc) % (PHASE_SCALE as int)
    }
}

/// While the accumulated phase stays under one cycle, no wrap happens:
/// the phase after `n` steps is exactly `start + n * inc`.
proof fn lemma_no_wrap_prefix(start: int, inc: int, n: nat)
    requires
        0 <= start,
        0 <= inc,
        start + n * inc < PHASE_SCALE,
    ensures
        phase_after_steps(start, inc, n) == start + n * inc,
    decreases n,
{
    if n > 0 {
        let m = PHASE_SCALE as int;
        assert(((n - 1) as nat) * inc == n * inc - inc) by (nonlinear_arith)
            requires
                n >= 1,
        ;
        lemma_no_wrap_prefix(start, inc, (n - 1) as nat);
        assert(phase_after_steps(start, inc, n) == (phase_after_steps(start, inc, (n - 1) as nat)
            + inc) % m);
        assert(phase_after_steps(start, inc, (n - 1) as nat) + inc == start + n * inc);
        vstd::arithmetic::div_mod::lemma_small_mod((start + n * inc) as nat, PHASE_SCALE as nat);
        assert((start + n * inc) % m == start + n * inc);
    } else {
        assert(n * inc == 0) by (nonlinear_arith)
            requires
                n == 0,
        ;
    }
}

/// The square wave's period, in samples, misses the exact cycle length
/// `PHASE_SCALE / inc` by less than one sample.
///
/// Starting from a phase `start` in `[0, inc)` (where every wrap lands),
/// the wave runs `k - 1` whole samples without wrapping, wraps on sample
/// `k`, and lands in `[0, inc)` again, so the same count repeats cycle
/// after cycle; and `(k - 1) * inc < PHASE_SCALE <= (k + 1) * inc` pins
/// `k` to within one sample of the exact cycle length. With
/// `inc == phase_increment(freq_of_pitch(p), sample_rate)` (see
/// `lemma_square_wave_period_of_pitch`), that cycle length is
/// `sample_rate / frequency(p)` samples in fixed point.
pub proof fn lemma_square_wave_period(start: int, inc: int, k: int)
    requires
        0 <= start < inc,
        inc <= PHASE_SCALE,
        k == (PHASE_SCALE - start + inc - 1) / inc,
    ensures
        1 <= k,
        (k - 1) * inc < PHASE_SCALE <= (k + 1) * inc,
        forall|j: int| 0 <= j < k ==> #[trigger] phase_after_steps(start, inc, j as nat) == start + j * inc,
        start + (k - 1) * inc < PHASE_SCALE,
        PHASE_SCALE <= start + k * inc,
        phase_after_steps(start, inc, k as nat) == start + k * inc - PHASE_SCALE,
        0 <= start + k * inc - PHASE_SCALE < inc,
{
    let m = PHASE_SCALE as int;
    let a = m - start;
    vstd::arithmetic::div_mod::lemma_fundamental_div_mod(a + inc - 1, inc);
    vstd::arithmetic::div_mod::lemma_mod_division_less_than_divisor(a + inc - 1, inc);
    let r = (a + inc - 1) % inc;
    assert(a + inc - 1 == inc * k + r);
    assert(inc * k == k * inc) by (nonlinear_arith);
    assert((k - 1) * inc == k * inc - inc) by (nonlinear_arith);
    assert((k + 1) * inc == k * inc + inc) by (nonlinear_arith);
    assert(k * inc == a + inc - 1 - r);
    assert(start + (k - 1) * inc < m);
    assert(m <= start + k * inc);
    assert(1 <= k) by (nonlinear_arith)
        requires
            k * inc >= 1,
            inc >= 1,
    ;
    assert forall|j: int| 0 <= j < k implies #[trigger] phase_after_steps(start, inc, j as nat)
        == start + j * inc by {
        vstd::arithmetic::mul::lemma_mul_inequality(j, k - 1, inc);
        lemma_no_wrap_prefix(start, inc, j as nat);
    }
    let wrapped = start + k * inc - m;
    assert(phase_after_steps(start, inc, (k - 1) as nat) == start + (k - 1) * inc);
    assert(phase_after_steps(start, inc, k as nat) == (start + (k - 1) * inc + inc) % m);
    assert(start + (k - 1) * inc + inc == m + wrapped);
    vstd::arithmetic::div_mod::lemma_mod_sub_multiples_vanish(m + wrapped, m);
    vstd::arithmetic::div_mod::lemma_small_mod(wrapped as nat, m as nat);
}

/// `lemma_square_wave_period` applied to the oscillator's own increment
/// for a pitch: once a pitch's frequency stays at or under 1000 times the
/// sample rate (one cycle per sample) and its fixed-point increment is
/// not rounded to nothing, the square wave's period at that pitch misses
/// the exact cycle length by less than one sample.
pub proof fn lemma_square_wave_period_of_pitch(pitch: int, sample_rate: int, start: int, k: int)
    requires
        1 <= sample_rate,
        freq_of_pitch(pitch) <= 1000 * sample_rate,
        1 <= phase_increment(freq_of_pitch(pitch), sample_rate),
        0 <= start < phase_increment(freq_of_pitch(pitch), sample_rate),
        k == (PHASE_SCALE - start + phase_increment(freq_of_pitch(pitch), sample_rate) - 1)
            / phase_increment(freq_of_pitch(pitch), sample_rate),
    ensures
        1 <= k,
        (k - 1) * phase_increment(freq_of_pitch(pitch), sample_rate) < PHASE_SCALE <= (k + 1)
            * phase_increment(freq_of_pitch(pitch), sample_rate),
        forall|j: int|
            0 <= j < k ==> #[trigger] phase_after_steps(
                start,
                phase_increment(freq_of_pitch(pitch), sample_rate),
                j as nat,
            ) == start + j * phase_increment(freq_of_pitch(pitch), sample_rate),
        PHASE_SCALE <= start + k * phase_increment(freq_of_pitch(pitch), sample_rate),
        0 <= start + k * phase_increment(freq_of_pitch(pitch), sample_rate) - PHASE_SCALE
            < phase_increment(freq_of_pitch(pitch), sample_rate),
{
    let freq = freq_of_pitch(pitch);
    assert(freq * 1_000_000 <= sample_rate * 1_000_000_000) by (nonlinear_arith)
        requires
            freq <= 1000 * sample_rate,
    ;
    vstd::arithmetic::mul::lemma_mul_is_commutative(sample_rate, 1_000_000_000);
    vstd::arithmetic::div_mod::lemma_multiply_divide_le(
        freq * 1_000_000,
        sample_rate,
        1_000_000_000,
    );
    lemma_square_wave_period(start, phase_increment(freq, sample_rate), k);
}

/// Exec mirror of `semitone_millihz`.
fn semitone_table(r: u32) -> (f: u64)
    requires
        r < 12,
    ensures
        f == semitone_millihz(r as int),
        440000 <= f <= 830609,
{
    if r == 0 {
        440000
    } else if r == 1 {
        466164
    } else if r == 2 {
        493883
    } else if r == 3 {
        523251
    } else if r == 4 {
        554365
    } else if r == 5 {
        587330
    } else if r == 6 {
        622254
    } else if r == 7 {
        659255
    } else if r == 8 {
        698456
    } else if r == 9 {
        739989
    } else if r == 10 {
        783991
    } else {
        830609
    }
}

/// Exec mirror of `pow2_small`.
fn pow2_table(k: u32) -> (p: u64)
    requires
        k < 20,
    ensures
        p == pow2_small(k as int),
        1 <= p <= 524288,
{
    if k == 0 {
        1
    } else if k == 1 {
        2
    } else if k == 2 {
        4
    } else if k == 3 {
        8
    } else if k == 4 {
        16
    } else if k == 5 {
        32
    } else if k == 6 {
        64
    } else if k == 7 {
        128
    } else if k == 8 {
        256
    } else if k == 9 {
        512
    } else if k == 10 {
        1024
    } else if k == 11 {
        2048
    } else if k == 12 {
        4096
    } else if k == 13 {
        8192
    } else if k == 14 {
        16384
    } else if k == 15 {
        32768
    } else if k == 16 {
        65536
    } else if k == 17 {
        131072
    } else if k == 18 {
        262144
    } else {
        524288
    }
}

} // verus!
