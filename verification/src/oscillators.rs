//! Phase-accumulating oscillators.
//!
//! Phase is an exact integer count of ticks inside one cycle. For the sine
//! and square oscillators a cycle is `1000 · sample_rate` ticks wide, so an
//! increment of one tick per sample corresponds to one milli-hertz; the
//! amplitude of the sine variant is `sin(2π · phase / width)`, evaluated by
//! the caller. For the parametric-curve oscillator a tick is a billionth of
//! the curve parameter t and the cycle width is the curve's fundamental
//! period.
//!
//! Each sample step adds `frequency / sample_rate` worth of ticks to the
//! phase and wraps it by subtracting the cycle width once if the sum has
//! exceeded it — a single conditional subtraction, not a modulo, which is
//! the intended behaviour for audio-rate use where the increment is far
//! below the width.

use vstd::prelude::*;
use crate::parametric_equation::{EquationA, TAU_NANOS};
use vstd::arithmetic::div_mod::{lemma_fundamental_div_mod, lemma_mod_multiples_vanish,
    lemma_small_mod};

verus! {

/// Addition that stops at the numeric ceiling. The phase accumulator uses
/// it so that a degenerate configuration (increment above the cycle width,
/// where the original design drifts without bound) cannot make it panic.
pub open spec fn spec_sat_add(a: u64, b: u64) -> u64 {
    if a + b > u64::MAX {
        u64::MAX
    } else {
        (a + b) as u64
    }
}

/// One phase step: add the increment, then take the sum back by one cycle
/// width if it has exceeded the width.
pub open spec fn spec_wrap_step(p: u64, inc: u64, width: u64) -> u64 {
    let s = spec_sat_add(p, inc);
    if s > width {
        (s - width) as u64
    } else {
        s
    }
}

/// The phase after `n` steps at a fixed increment.
pub open spec fn spec_wrap_steps(p: u64, inc: u64, width: u64, n: nat) -> u64
    decreases n,
{
    if n == 0 {
        p
    } else {
        spec_wrap_step(spec_wrap_steps(p, inc, width, (n - 1) as nat), inc, width)
    }
}

fn wrap_step(p: u64, inc: u64, width: u64) -> (r: u64)
    ensures
        r == spec_wrap_step(p, inc, width),
{
    let s = if inc > u64::MAX - p {
        u64::MAX
    } else {
        p + inc
    };
    if s > width {
        s - width
    } else {
        s
    }
}

/// While the increment stays at or below the cycle width — the frequency
/// does not exceed the wrap rate — one step keeps the phase within one
/// cycle width of zero.
pub proof fn lemma_wrap_step_bounded(p: u64, inc: u64, width: u64)
    requires
        p <= width,
        inc <= width,
        width <= u64::MAX / 2,
    ensures
        spec_wrap_step(p, inc, width) <= width,
{
}

/// Phase shows no unbounded growth: any number of steps under an increment
/// at or below the cycle width leaves it within one cycle width of zero.
pub proof fn lemma_wrap_steps_bounded(p: u64, inc: u64, width: u64, n: nat)
    requires
        p <= width,
        inc <= width,
        width <= u64::MAX / 2,
    ensures
        spec_wrap_steps(p, inc, width, n) <= width,
    decreases n,
{
    if n > 0 {
        lemma_wrap_steps_bounded(p, inc, width, (n - 1) as nat);
        lemma_wrap_step_bounded(spec_wrap_steps(p, inc, width, (n - 1) as nat), inc, width);
    }
}

/// Once the phase has entered (0, width] it follows a closed form: after
/// `n` steps it is congruent to the start plus `n` increments, reduced into
/// (0, width].
pub proof fn lemma_wrap_steps_closed_form(p: u64, inc: u64, width: u64, n: nat)
    requires
        1 <= p <= width,
        inc <= width,
        width <= u64::MAX / 2,
    ensures
        spec_wrap_steps(p, inc, width, n) == ((p - 1 + n * inc) % (width as int)) + 1,
    decreases n,
{
    let w = width as int;
    if n == 0 {
        lemma_small_mod((p - 1) as nat, width as nat);
    } else {
        lemma_wrap_steps_closed_form(p, inc, width, (n - 1) as nat);
        let a = p - 1 + (n - 1) * inc;
        let q = spec_wrap_steps(p, inc, width, (n - 1) as nat);
        assert(q == a % w + 1);
        assert(0 <= a % w < w);
        assert(n * inc == (n - 1) * inc + inc) by (nonlinear_arith);
        lemma_fundamental_div_mod(a, w);
        assert(a == w * (a / w) + a % w);
        // a + inc differs from (q - 1 + inc) by a multiple of the width.
        lemma_mod_multiples_vanish(a / w, q - 1 + inc, w);
        assert((p - 1 + n * inc) % w == (q - 1 + inc) % w);
        let s = spec_sat_add(q, inc);
        assert(s == q + inc);
        if s > width {
            lemma_mod_multiples_vanish(1, q - 1 + inc - w, w);
            lemma_small_mod((q - 1 + inc - w) as nat, width as nat);
            assert((q - 1 + inc) % w == q - 1 + inc - w);
        } else {
            lemma_small_mod((q - 1 + inc) as nat, width as nat);
        }
    }
}

/// One full period returns the phase to its start: if `n` increments add up
/// to a whole number of cycle widths, `n` steps are the identity on any
/// phase already inside (0, width].
pub proof fn lemma_wrap_steps_full_period(p: u64, inc: u64, width: u64, n: nat)
    requires
        1 <= p <= width,
        inc <= width,
        width <= u64::MAX / 2,
        (n * inc) % (width as int) == 0,
    ensures
        spec_wrap_steps(p, inc, width, n) == p,
{
    let w = width as int;
    lemma_wrap_steps_closed_form(p, inc, width, n);
    let m = n * inc;
    lemma_fundamental_div_mod(m, w);
    assert(m == w * (m / w));
    lemma_mod_multiples_vanish(m / w, p - 1, w);
    assert((p - 1 + m) % w == (p - 1) % w);
    lemma_small_mod((p - 1) as nat, width as nat);
}

/// Phase stays in its declared range for the sine and square oscillators:
/// starting within one cycle width, with the frequency (milli-hertz) no
/// higher than the cycle's tick rate (that is, at or below the sample
/// rate in hertz), any number of steps leaves the phase within the width.
pub proof fn lemma_cycle_phase_in_range(sample_rate: u32, phase: u64, frequency: u32, n: nat)
    requires
        sample_rate >= 1,
        phase <= 1000 * sample_rate,
        frequency <= 1000 * sample_rate,
    ensures
        spec_wrap_steps(phase, frequency as u64, (1000 * sample_rate) as u64, n) <= 1000
            * sample_rate,
{
    lemma_wrap_steps_bounded(phase, frequency as u64, (1000 * sample_rate) as u64, n);
}

/// One full period returns the sine cycle to its start exactly: when `n`
/// steps at the given frequency add up to a whole number of cycles — as
/// `n = rate / f` does whenever `f` divides the rate — a phase already
/// inside the cycle comes back to the very same value, and with it the
/// oscillator's output.
pub proof fn lemma_cycle_full_period(sample_rate: u32, phase: u64, frequency: u32, n: nat)
    requires
        sample_rate >= 1,
        1 <= phase <= 1000 * sample_rate,
        frequency <= 1000 * sample_rate,
        (n * frequency) % (1000 * sample_rate) == 0,
    ensures
        spec_wrap_steps(phase, frequency as u64, (1000 * sample_rate) as u64, n) == phase,
{
    lemma_wrap_steps_full_period(phase, frequency as u64, (1000 * sample_rate) as u64, n);
}

/// Phase stays in its declared range for the parametric-curve oscillator:
/// while the per-sample increment does not exceed the stored period, any
/// number of steps leaves t within one period.
pub proof fn lemma_curve_phase_in_range(o: ParametricOscillatorA, n: nat)
    requires
        o.wf(),
        o.phase <= o.period,
        o.spec_inc() <= o.period,
    ensures
        spec_wrap_steps(o.phase, o.spec_inc(), o.period, n) <= o.period,
{
    assert(o.period <= TAU_NANOS) by {
        crate::gcd::lemma_gcd_pos(o.equation.a as nat, o.equation.b as nat);
        crate::gcd::lemma_gcd_pos(
            crate::gcd::spec_gcd(o.equation.a as nat, o.equation.b as nat),
            crate::gcd::spec_gcd(o.equation.c as nat, o.equation.d as nat),
        );
        vstd::arithmetic::div_mod::lemma_div_is_ordered_by_denominator(
            TAU_NANOS as int,
            1,
            o.equation.spec_period_divisor() as int,
        );
    }
    lemma_wrap_steps_bounded(o.phase, o.spec_inc(), o.period, n);
}

/// Sine oscillator: amplitude is `sin(2π · phase / (1000 · sample_rate))`,
/// evaluated from the phase by the caller.
pub struct SineOscillator {
    /// Samples per second; at least 1.
    pub sample_rate: u32,
    /// Ticks into the current cycle; one cycle is `1000 · sample_rate` ticks.
    pub phase: u64,
    /// Frequency in milli-hertz.
    pub frequency: u32,
}

impl SineOscillator {
    /// Ticks in one cycle. One tick per sample is one milli-hertz.
    pub open spec fn spec_width(self) -> u64 {
        (1000 * self.sample_rate) as u64
    }

    pub fn new(sample_rate: u32) -> (o: SineOscillator)
        requires
            sample_rate >= 1,
        ensures
            o.sample_rate == sample_rate,
            o.phase == 0,
            o.frequency == 440_000,
    {
        SineOscillator { sample_rate, phase: 0, frequency: 440_000 }
    }

    pub fn set_sample_rate(&mut self, sample_rate: u32)
        requires
            sample_rate >= 1,
        ensures
            *final(self) == (SineOscillator { sample_rate, ..*old(self) }),
    {
        self.sample_rate = sample_rate;
    }

    pub fn set_frequency(&mut self, frequency: u32)
        ensures
            *final(self) == (SineOscillator { frequency, ..*old(self) }),
    {
        self.frequency = frequency;
    }

    /// Advance the phase by one sample at the current frequency and return
    /// the new phase.
    pub fn advance(&mut self) -> (p: u64)
        ensures
            final(self).phase == spec_wrap_step(
                old(self).phase,
                old(self).frequency as u64,
                old(self).spec_width(),
            ),
            p == final(self).phase,
            final(self).sample_rate == old(self).sample_rate,
            final(self).frequency == old(self).frequency,
    {
        let width = 1000u64 * (self.sample_rate as u64);
        self.phase = wrap_step(self.phase, self.frequency as u64, width);
        self.phase
    }
}

/// Square oscillator: amplitude is exactly +1 in the first half of the
/// cycle and exactly −1 in the second, with no intermediate values.
pub struct SquareOscillator {
    /// Samples per second; at least 1.
    pub sample_rate: u32,
    /// Ticks into the current cycle; one cycle is `1000 · sample_rate` ticks.
    pub phase: u64,
    /// Frequency in milli-hertz.
    pub frequency: u32,
}

impl SquareOscillator {
    /// Ticks in one cycle. One tick per sample is one milli-hertz.
    pub open spec fn spec_width(self) -> u64 {
        (1000 * self.sample_rate) as u64
    }

    pub fn new(sample_rate: u32) -> (o: SquareOscillator)
        requires
            sample_rate >= 1,
        ensures
            o.sample_rate == sample_rate,
            o.phase == 0,
            o.frequency == 440_000,
    {
        SquareOscillator { sample_rate, phase: 0, frequency: 440_000 }
    }

    pub fn set_sample_rate(&mut self, sample_rate: u32)
        requires
            sample_rate >= 1,
        ensures
            *final(self) == (SquareOscillator { sample_rate, ..*old(self) }),
    {
        self.sample_rate = sample_rate;
    }

    pub fn set_frequency(&mut self, frequency: u32)
        ensures
            *final(self) == (SquareOscillator { frequency, ..*old(self) }),
    {
        self.frequency = frequency;
    }

    /// Advance one sample and return the amplitude: +1 while the phase is in
    /// the first half of the cycle, −1 otherwise.
    pub fn sample(&mut self) -> (level: i8)
        ensures
            final(self).phase == spec_wrap_step(
                old(self).phase,
                old(self).frequency as u64,
                old(self).spec_width(),
            ),
            final(self).sample_rate == old(self).sample_rate,
            final(self).frequency == old(self).frequency,
            level == (if 2 * final(self).phase < final(self).spec_width() {
                1i8
            } else {
                -1i8
            }),
    {
        let width = 1000u64 * (self.sample_rate as u64);
        let half = 500u64 * (self.sample_rate as u64);
        self.phase = wrap_step(self.phase, self.frequency as u64, width);
        if self.phase < half {
            1
        } else {
            -1
        }
    }
}

/// Parametric-curve oscillator: the phase is the curve parameter t in
/// nano-units, wrapping at the curve's fundamental period; the amplitude is
/// the radial deviation of the curve position at t from the unit circle,
/// `sqrt(x² + y²) − 1`, evaluated by the caller.
pub struct ParametricOscillatorA {
    /// Samples per second; at least 1.
    pub sample_rate: u32,
    /// The curve parameter t, in nano-units.
    pub phase: u64,
    /// Frequency in milli-hertz.
    pub frequency: u32,
    /// The curve being traced.
    pub equation: EquationA,
    /// The stored fundamental period of `equation`, in nano-units.
    pub period: u64,
}

impl ParametricOscillatorA {
    /// Ticks added to t per sample: `frequency / sample_rate`, in nano-units.
    pub open spec fn spec_inc(self) -> u64 {
        ((self.frequency as nat * 1_000_000) / (self.sample_rate as nat)) as u64
    }

    /// The stored period matches the stored equation, and rates and
    /// coefficients are in range.
    pub open spec fn wf(self) -> bool {
        &&& self.sample_rate >= 1
        &&& self.equation.wf()
        &&& self.period == self.equation.spec_period_nanos()
    }

    pub fn new(sample_rate: u32, equation: EquationA) -> (o: ParametricOscillatorA)
        requires
            sample_rate >= 1,
            equation.wf(),
        ensures
            o.wf(),
            o.sample_rate == sample_rate,
            o.phase == 0,
            o.frequency == 440_000,
            o.equation == equation,
    {
        let period = equation.period_nanos();
        ParametricOscillatorA { sample_rate, phase: 0, frequency: 440_000, equation, period }
    }

    pub fn set_sample_rate(&mut self, sample_rate: u32)
        requires
            sample_rate >= 1,
        ensures
            *final(self) == (ParametricOscillatorA { sample_rate, ..*old(self) }),
    {
        self.sample_rate = sample_rate;
    }

    pub fn set_frequency(&mut self, frequency: u32)
        ensures
            *final(self) == (ParametricOscillatorA { frequency, ..*old(self) }),
    {
        self.frequency = frequency;
    }

    /// Store a new equation and derive its period. The phase is deliberately
    /// not re-wrapped here: a phase beyond a newly shortened period realigns
    /// at the next wrap, one period per step — a preserved judgment call of
    /// the design, not an oversight.
    pub fn set_equation(&mut self, equation: EquationA)
        requires
            equation.wf(),
        ensures
            final(self).equation == equation,
            final(self).period == equation.spec_period_nanos(),
            final(self).phase == old(self).phase,
            final(self).frequency == old(self).frequency,
            final(self).sample_rate == old(self).sample_rate,
            old(self).sample_rate >= 1 ==> final(self).wf(),
    {
        self.period = equation.period_nanos();
        self.equation = equation;
    }

    /// Advance t by one sample at the current frequency and return the new
    /// t, from which the caller evaluates the curve position.
    pub fn advance(&mut self) -> (t: u64)
        requires
            old(self).sample_rate >= 1,
        ensures
            final(self).phase == spec_wrap_step(old(self).phase, old(self).spec_inc(), old(self).period),
            t == final(self).phase,
            final(self).sample_rate == old(self).sample_rate,
            final(self).frequency == old(self).frequency,
            final(self).equation == old(self).equation,
            final(self).period == old(self).period,
    {
        let inc = ((self.frequency as u64) * 1_000_000) / (self.sample_rate as u64);
        self.phase = wrap_step(self.phase, inc, self.period);
        self.phase
    }
}

/// What one advance of an oscillator determined, in a form the caller can
/// turn into an amplitude without further state.
#[derive(Clone, Copy, Debug, PartialEq, Eq, Structural)]
pub enum WaveSample {
    /// Sine: the amplitude is `sin(2π · num / den)`.
    SinePhase { num: u64, den: u64 },
    /// Square: the amplitude is the level itself, +1 or −1.
    SquareLevel { level: i8 },
    /// Parametric curve: the amplitude is the radial deviation from the
    /// unit circle of the curve position at `t = t_nanos` billionths.
    CurvePhase { t_nanos: u64 },
}

/// The one oscillator a generator runs, in whichever waveform it was
/// configured with.
pub enum OscillatorUnit {
    Sine(SineOscillator),
    Square(SquareOscillator),
    Curve(ParametricOscillatorA),
}

impl OscillatorUnit {
    pub open spec fn wf(self) -> bool {
        match self {
            OscillatorUnit::Sine(o) => o.sample_rate >= 1,
            OscillatorUnit::Square(o) => o.sample_rate >= 1,
            OscillatorUnit::Curve(o) => o.wf(),
        }
    }

    pub open spec fn spec_with_sample_rate(self, sample_rate: u32) -> OscillatorUnit {
        match self {
            OscillatorUnit::Sine(o) => OscillatorUnit::Sine(SineOscillator { sample_rate, ..o }),
            OscillatorUnit::Square(o) => OscillatorUnit::Square(
                SquareOscillator { sample_rate, ..o },
            ),
            OscillatorUnit::Curve(o) => OscillatorUnit::Curve(
                ParametricOscillatorA { sample_rate, ..o },
            ),
        }
    }

    pub open spec fn spec_with_frequency(self, frequency: u32) -> OscillatorUnit {
        match self {
            OscillatorUnit::Sine(o) => OscillatorUnit::Sine(SineOscillator { frequency, ..o }),
            OscillatorUnit::Square(o) => OscillatorUnit::Square(
                SquareOscillator { frequency, ..o },
            ),
            OscillatorUnit::Curve(o) => OscillatorUnit::Curve(
                ParametricOscillatorA { frequency, ..o },
            ),
        }
    }

    /// Storing an equation touches only the curve variant; the other
    /// waveforms have no coefficients to take.
    pub open spec fn spec_with_equation(self, equation: EquationA) -> OscillatorUnit {
        match self {
            OscillatorUnit::Curve(o) => OscillatorUnit::Curve(
                ParametricOscillatorA {
                    equation,
                    period: equation.spec_period_nanos() as u64,
                    ..o
                },
            ),
            _ => self,
        }
    }

    /// The oscillator after one advance.
    pub open spec fn spec_advanced(self) -> OscillatorUnit {
        match self {
            OscillatorUnit::Sine(o) => OscillatorUnit::Sine(
                SineOscillator {
                    phase: spec_wrap_step(o.phase, o.frequency as u64, o.spec_width()),
                    ..o
                },
            ),
            OscillatorUnit::Square(o) => OscillatorUnit::Square(
                SquareOscillator {
                    phase: spec_wrap_step(o.phase, o.frequency as u64, o.spec_width()),
                    ..o
                },
            ),
            OscillatorUnit::Curve(o) => OscillatorUnit::Curve(
                ParametricOscillatorA {
                    phase: spec_wrap_step(o.phase, o.spec_inc(), o.period),
                    ..o
                },
            ),
        }
    }

    /// What one advance hands the caller.
    pub open spec fn spec_advance_out(self) -> WaveSample {
        match self {
            OscillatorUnit::Sine(o) => WaveSample::SinePhase {
                num: spec_wrap_step(o.phase, o.frequency as u64, o.spec_width()),
                den: o.spec_width(),
            },
            OscillatorUnit::Square(o) => WaveSample::SquareLevel {
                level: (if 2 * spec_wrap_step(o.phase, o.frequency as u64, o.spec_width())
                    < o.spec_width() {
                    1i8
                } else {
                    -1i8
                }),
            },
            OscillatorUnit::Curve(o) => WaveSample::CurvePhase {
                t_nanos: spec_wrap_step(o.phase, o.spec_inc(), o.period),
            },
        }
    }

    pub fn set_sample_rate(&mut self, sample_rate: u32)
        requires
            sample_rate >= 1,
        ensures
            *final(self) == old(self).spec_with_sample_rate(sample_rate),
            old(self).wf() ==> final(self).wf(),
    {
        match self {
            OscillatorUnit::Sine(o) => o.set_sample_rate(sample_rate),
            OscillatorUnit::Square(o) => o.set_sample_rate(sample_rate),
            OscillatorUnit::Curve(o) => o.set_sample_rate(sample_rate),
        }
    }

    pub fn set_frequency(&mut self, frequency: u32)
        ensures
            *final(self) == old(self).spec_with_frequency(frequency),
            old(self).wf() ==> final(self).wf(),
    {
        match self {
            OscillatorUnit::Sine(o) => o.set_frequency(frequency),
            OscillatorUnit::Square(o) => o.set_frequency(frequency),
            OscillatorUnit::Curve(o) => o.set_frequency(frequency),
        }
    }

    pub fn set_equation(&mut self, equation: EquationA)
        requires
            equation.wf(),
        ensures
            *final(self) == old(self).spec_with_equation(equation),
            old(self).wf() ==> final(self).wf(),
    {
        match self {
            OscillatorUnit::Curve(o) => o.set_equation(equation),
            _ => (),
        }
    }

    /// Advance one sample and hand back what the caller needs to evaluate
    /// the amplitude.
    pub fn advance(&mut self) -> (w: WaveSample)
        requires
            old(self).wf(),
        ensures
            *final(self) == old(self).spec_advanced(),
            w == old(self).spec_advance_out(),
            final(self).wf(),
    {
        match self {
            OscillatorUnit::Sine(o) => {
                let p = o.advance();
                let den = 1000u64 * (o.sample_rate as u64);
                WaveSample::SinePhase { num: p, den }
            },
            OscillatorUnit::Square(o) => {
                let level = o.sample();
                WaveSample::SquareLevel { level }
            },
            OscillatorUnit::Curve(o) => {
                let t = o.advance();
                WaveSample::CurvePhase { t_nanos: t }
            },
        }
    }
}

} // verus!
