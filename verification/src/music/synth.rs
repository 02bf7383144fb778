//! Oscillators and the mixer, in exact arithmetic on whole numbers.
//!
//! Frequencies are counted in hundredths of a hertz. A voice of frequency
//! `freq` has, at sample `n` of `sample_rate` samples per second, gone
//! through `n * freq / (100 * sample_rate)` cycles; so a cycle is cut into
//! `100 * sample_rate` steps, of which `n * freq` have passed, and the
//! place in the cycle is the remainder. Signal levels are exact fractions
//! of full scale, which whoever feeds an audio device divides out.
//!
//! A rest, which has frequency zero, is silent in every oscillator, and so
//! is every voice while the sample rate is zero.

use vstd::arithmetic::div_mod::lemma_fundamental_div_mod;
use vstd::prelude::*;

verus! {

/// A signal level: the fraction `num / den` of full scale.
#[derive(Clone, Copy, Debug, PartialEq, Eq, Structural)]
pub struct Level {
    pub num: i64,
    pub den: i64,
}

impl Level {
    /// A level is well formed when it lies within full scale.
    pub open spec fn wf(self) -> bool {
        &&& 0 < self.den
        &&& -self.den <= self.num <= self.den
    }

    /// Silence.
    pub fn zero() -> (out: Level)
        ensures
            out.num == 0,
            out.den == 1,
            out.wf(),
    {
        Level { num: 0, den: 1 }
    }
}

/// Steps in one full cycle of phase at the given sample rate.
pub open spec fn cycle_steps(sample_rate: u32) -> int {
    100 * sample_rate
}

/// How many steps into its cycle a voice of frequency `freq` (hundredths of a
/// hertz) stands at sample `sample_counter`.
pub open spec fn cycle_position(sample_counter: u64, freq: u32, sample_rate: u32) -> int
    recommends
        sample_rate > 0,
{
    (sample_counter * freq) % cycle_steps(sample_rate)
}

/// A voice sounds only with a pitch and a running clock.
pub open spec fn sounds(freq: u32, sample_rate: u32) -> bool {
    freq > 0 && sample_rate > 0
}

/// The pulse wave: high for the first `duty_percent` hundredths of each
/// cycle, low for the rest, silent where nothing sounds.
pub open spec fn pulse_level(
    sample_counter: u64,
    freq: u32,
    sample_rate: u32,
    duty_percent: u32,
) -> int {
    if !sounds(freq, sample_rate) {
        0
    } else if cycle_position(sample_counter, freq, sample_rate) < duty_percent * sample_rate {
        1
    } else {
        -1
    }
}

/// Computes the cycle position of a sounding voice.
fn phase_steps(sample_counter: u64, freq: u32, sample_rate: u32) -> (m: u64)
    requires
        sample_rate > 0,
    ensures
        m == cycle_position(sample_counter, freq, sample_rate),
        0 <= m < cycle_steps(sample_rate),
{
    let steps: u128 = 100u128 * (sample_rate as u128);
    assert(sample_counter * freq <= 0xffff_ffff_ffff_ffff * 0xffff_ffff) by (nonlinear_arith)
        requires
            0 <= sample_counter <= 0xffff_ffff_ffff_ffff,
            0 <= freq <= 0xffff_ffff,
    ;
    let turned: u128 = (sample_counter as u128) * (freq as u128);
    let m: u128 = turned % steps;
    m as u64
}

/// One sample of the pulse wave.
pub fn generate_pulse_wave(
    sample_counter: u64,
    freq: u32,
    sample_rate: u32,
    duty_percent: u32,
) -> (out: Level)
    ensures
        out.den == 1,
        out.num == pulse_level(sample_counter, freq, sample_rate, duty_percent),
        out.wf(),
        sounds(freq, sample_rate) ==> out.num == 1 || out.num == -1,
{
    if freq == 0 || sample_rate == 0 {
        return Level::zero();
    }
    let m: u64 = phase_steps(sample_counter, freq, sample_rate);
    assert(duty_percent * sample_rate <= 0xffff_ffff * 0xffff_ffff) by (nonlinear_arith)
        requires
            0 <= duty_percent <= 0xffff_ffff,
            0 <= sample_rate <= 0xffff_ffff,
    ;
    let high: u64 = (duty_percent as u64) * (sample_rate as u64);
    if m < high {
        Level { num: 1, den: 1 }
    } else {
        Level { num: -1, den: 1 }
    }
}

/// The square wave: the sign of the sine of the phase angle, which is
/// positive strictly inside the first half of each cycle.
pub open spec fn square_level(sample_counter: u64, freq: u32, sample_rate: u32) -> int {
    if !sounds(freq, sample_rate) {
        0
    } else if 0 < cycle_position(sample_counter, freq, sample_rate) && 2 * cycle_position(
        sample_counter,
        freq,
        sample_rate,
    ) < cycle_steps(sample_rate) {
        1
    } else {
        -1
    }
}

/// One sample of the square wave.
pub fn generate_square_wave(sample_counter: u64, freq: u32, sample_rate: u32) -> (out: Level)
    ensures
        out.den == 1,
        out.num == square_level(sample_counter, freq, sample_rate),
        out.wf(),
        sounds(freq, sample_rate) ==> out.num == 1 || out.num == -1,
{
    if freq == 0 || sample_rate == 0 {
        return Level::zero();
    }
    let m: u64 = phase_steps(sample_counter, freq, sample_rate);
    let steps: u64 = 100u64 * (sample_rate as u64);
    if 0 < m && 2 * m < steps {
        Level { num: 1, den: 1 }
    } else {
        Level { num: -1, den: 1 }
    }
}

/// The triangle wave at cycle position `m` of `steps`, times `steps`:
/// `2 * |2 * (t - 1/2)| - 1` for `t = m / steps`.
pub open spec fn triangle_at(m: int, steps: int) -> int {
    if 4 * m >= 2 * steps {
        4 * m - 3 * steps
    } else {
        steps - 4 * m
    }
}

/// The numerator of the triangle wave over `cycle_steps(sample_rate)`.
pub open spec fn triangle_num(sample_counter: u64, freq: u32, sample_rate: u32) -> int {
    if !sounds(freq, sample_rate) {
        0
    } else {
        triangle_at(cycle_position(sample_counter, freq, sample_rate), cycle_steps(sample_rate))
    }
}

/// One sample of the triangle wave, as a fraction of `100 * sample_rate`
/// where the voice sounds and as plain silence where it does not.
pub fn generate_triangle_wave(sample_counter: u64, freq: u32, sample_rate: u32) -> (out: Level)
    ensures
        out.num == triangle_num(sample_counter, freq, sample_rate),
        out.den == if sounds(freq, sample_rate) {
            cycle_steps(sample_rate)
        } else {
            1
        },
        out.wf(),
{
    if freq == 0 || sample_rate == 0 {
        return Level::zero();
    }
    let m: i64 = phase_steps(sample_counter, freq, sample_rate) as i64;
    let steps: i64 = 100i64 * (sample_rate as i64);
    let num: i64 = if 4 * m >= 2 * steps {
        4 * m - 3 * steps
    } else {
        steps - 4 * m
    };
    Level { num, den: steps }
}

/// The triangle wave stays within full scale at every cycle position.
pub proof fn lemma_triangle_in_range(m: int, steps: int)
    requires
        0 <= m < steps,
    ensures
        -steps <= triangle_at(m, steps) <= steps,
{
}

/// Adjacent samples of the triangle wave differ by at most four over the
/// period: with the period `100 * sample_rate / freq` samples long, the
/// numerators over `100 * sample_rate` differ by at most `4 * freq`.
pub proof fn lemma_triangle_continuous(sample_counter: u64, freq: u32, sample_rate: u32)
    requires
        sample_counter < u64::MAX,
    ensures
        triangle_num((sample_counter + 1) as u64, freq, sample_rate) - triangle_num(
            sample_counter,
            freq,
            sample_rate,
        ) <= 4 * freq,
        triangle_num(sample_counter, freq, sample_rate) - triangle_num(
            (sample_counter + 1) as u64,
            freq,
            sample_rate,
        ) <= 4 * freq,
{
    if sounds(freq, sample_rate) {
        let steps: int = cycle_steps(sample_rate);
        let c: int = freq as int;
        let x0: int = sample_counter * freq;
        let x1: int = (sample_counter + 1) * freq;
        let m0: int = x0 % steps;
        let m1: int = x1 % steps;
        let q0: int = x0 / steps;
        let q1: int = x1 / steps;
        lemma_fundamental_div_mod(x0, steps);
        lemma_fundamental_div_mod(x1, steps);
        assert(x1 == x0 + c) by (nonlinear_arith)
            requires
                x0 == sample_counter * freq,
                x1 == (sample_counter + 1) * freq,
                c == freq,
        ;
        let k: int = q1 - q0;
        assert(m1 == m0 + c - k * steps) by (nonlinear_arith)
            requires
                x0 == steps * q0 + m0,
                x1 == steps * q1 + m1,
                x1 == x0 + c,
                k == q1 - q0,
        ;
        lemma_triangle_in_range(m0, steps);
        lemma_triangle_in_range(m1, steps);
        if 2 * c < steps {
            assert(k == 0 || k == 1) by (nonlinear_arith)
                requires
                    m1 == m0 + c - k * steps,
                    0 <= m0 < steps,
                    0 <= m1 < steps,
                    0 <= c,
                    2 * c < steps,
            ;
        }
    }
}

/// The share of full scale given to the melody voice, in hundredths.
pub const MELODY_GAIN: u32 = 20;

/// The share of full scale given to the bass voice, in hundredths.
pub const BASS_GAIN: u32 = 10;

/// The numerator of the mix of two levels under gains given in hundredths.
pub open spec fn mixed_num(melody: Level, bass: Level, melody_gain: u32, bass_gain: u32) -> int {
    melody_gain * melody.num * bass.den + bass_gain * bass.num * melody.den
}

/// The denominator of the mix of two levels.
pub open spec fn mixed_den(melody: Level, bass: Level) -> int {
    100 * melody.den * bass.den
}

/// A gain times a level in range, brought to another denominator, stays
/// within the gain times both denominators.
proof fn lemma_gain_bound(gain: int, num: int, den: int, other: int)
    by (nonlinear_arith)
    requires
        0 <= gain,
        -den <= num <= den,
        0 < other,
    ensures
        -(gain * den * other) <= gain * num * other <= gain * den * other,
        -(gain * den) <= gain * num <= gain * den,
        gain * den <= gain * den * other,
{
}

/// Two gains that sum to at most one leave room for both voices: each
/// voice at full scale stays within the common denominator, and so do both
/// together.
proof fn lemma_gain_sum(melody_gain: int, bass_gain: int, melody_den: int, bass_den: int)
    by (nonlinear_arith)
    requires
        0 <= melody_gain,
        0 <= bass_gain,
        melody_gain + bass_gain <= 100,
        0 < melody_den,
        0 < bass_den,
    ensures
        melody_gain * melody_den * bass_den + bass_gain * bass_den * melody_den == (melody_gain
            + bass_gain) * (melody_den * bass_den),
        (melody_gain + bass_gain) * (melody_den * bass_den) <= 100 * melody_den * bass_den,
        100 * ((melody_gain + bass_gain) * (melody_den * bass_den)) == (melody_gain + bass_gain) * (
        100 * melody_den * bass_den),
        100 * melody_den <= 100 * melody_den * bass_den,
        melody_gain * melody_den <= 100 * melody_den * bass_den,
        bass_gain * bass_den <= 100 * melody_den * bass_den,
        melody_gain * melody_den * bass_den <= 100 * melody_den * bass_den,
        bass_gain * bass_den * melody_den <= 100 * melody_den * bass_den,
{
}

/// Mixes the two voices: `melody * melody_gain + bass * bass_gain`, the
/// gains in hundredths. With gains that sum to at most one the mix never
/// exceeds their sum, and so never clips.
pub fn mix(melody: Level, bass: Level, melody_gain: u32, bass_gain: u32) -> (out: Level)
    requires
        melody.wf(),
        bass.wf(),
        melody_gain + bass_gain <= 100,
        mixed_den(melody, bass) <= i64::MAX,
    ensures
        out.num == mixed_num(melody, bass, melody_gain, bass_gain),
        out.den == mixed_den(melody, bass),
        out.wf(),
        100 * out.num <= (melody_gain + bass_gain) * out.den,
        -((melody_gain + bass_gain) * out.den) <= 100 * out.num,
{
    proof {
        lemma_gain_bound(melody_gain as int, melody.num as int, melody.den as int, bass.den as int);
        lemma_gain_bound(bass_gain as int, bass.num as int, bass.den as int, melody.den as int);
        lemma_gain_sum(
            melody_gain as int,
            bass_gain as int,
            melody.den as int,
            bass.den as int,
        );
    }
    let m: i64 = (melody_gain as i64) * melody.num * bass.den;
    let b: i64 = (bass_gain as i64) * bass.num * melody.den;
    let den: i64 = 100 * melody.den * bass.den;
    let out = Level { num: m + b, den };
    out
}

} // verus!
