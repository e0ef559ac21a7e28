use paramic::events::note_freq_mhz;
use paramic::generator::Paramic;
use paramic::oscillators::{ParametricOscillatorA, SineOscillator, SquareOscillator};
use paramic::parametric_equation::{EquationA, TAU_NANOS};
use paramic::smoother::LinearSmoother;

fn eq(a: i32, b: i32, c: i32, d: i32, j: i32, k: i32) -> EquationA {
    EquationA { a, b, c, d, j, k }
}

#[test]
fn period_divisor_historic_coefficients() {
    // gcd(gcd(1, 7), gcd(3, 3)) == gcd(1, 3) == 1, so the period is 2π.
    let e = eq(1, 7, 3, 3, 3, 3);
    assert_eq!(e.period_divisor(), 1);
    assert_eq!(e.period_nanos(), TAU_NANOS);
    let period_seconds = e.period_nanos() as f64 * 1e-9;
    assert!((period_seconds - std::f64::consts::TAU).abs() < 1e-8);
}

#[test]
fn period_divisor_reduces() {
    // gcd(gcd(8, 12), gcd(20, 30)) == gcd(4, 10) == 2: the divisor matches
    // none of the coefficients, so it really went through the gcds.
    let e = eq(8, 12, 20, 30, 1, 1);
    assert_eq!(e.period_divisor(), 2);
    assert_eq!(e.period_nanos(), TAU_NANOS / 2);
}

#[test]
fn period_divisor_default_coefficients() {
    let e = EquationA::default_coefficients();
    assert_eq!((e.a, e.b, e.c, e.d, e.j, e.k), (1, 7, 1, 7, 3, 3));
    assert_eq!(e.period_divisor(), 1);
}

#[test]
fn period_divisor_equal_coefficients() {
    // All coefficients equal: the divisor is that coefficient itself.
    let e = eq(100, 100, 100, 100, 1, 1);
    assert_eq!(e.period_divisor(), 100);
    assert_eq!(e.period_nanos(), TAU_NANOS / 100);
}

#[test]
fn curve_sample_times_grid() {
    let e = EquationA::default_coefficients();
    let ts = e.curve_sample_times(4);
    assert_eq!(ts.len(), 4);
    assert_eq!(ts[0], 0);
    assert_eq!(ts[1], TAU_NANOS / 4);
    assert_eq!(ts[2], 2 * TAU_NANOS / 4);
    assert_eq!(ts[3], 3 * TAU_NANOS / 4);
    assert!(e.curve_sample_times(0).is_empty());
}

#[test]
fn note_frequencies_equal_tempered() {
    // A4 and its octaves are exact in milli-hertz.
    assert_eq!(note_freq_mhz(69), 440_000);
    assert_eq!(note_freq_mhz(57), 220_000);
    assert_eq!(note_freq_mhz(81), 880_000);
    // Middle C and the extremes of the range.
    assert_eq!(note_freq_mhz(60), 261_625);
    assert_eq!(note_freq_mhz(0), 8_175);
    assert_eq!(note_freq_mhz(127), 12_543_853);
    // Every note against the real-valued mapping, within one milli-hertz
    // plus the relative error the octave doubling of the table carries.
    for note in 0u8..=127 {
        let reference = 440_000.0f64 * 2f64.powf((note as f64 - 69.0) / 12.0);
        let got = note_freq_mhz(note) as f64;
        assert!((got - reference).abs() <= 1.0 + reference * 1e-6);
    }
}

#[test]
fn sine_phase_accumulates_and_wraps() {
    let mut o = SineOscillator::new(48_000);
    o.set_frequency(480_000); // 480 Hz: one period is exactly 100 samples
    let p1 = o.advance();
    assert_eq!(p1, 480_000);
    for _ in 0..98 {
        o.advance();
    }
    let p100 = o.advance();
    assert_eq!(p100, 48_000_000); // one full cycle width
    let p101 = o.advance();
    assert_eq!(p101, p1); // back to the first sample's phase exactly
}

#[test]
fn sine_output_repeats_after_one_period() {
    // Sampling 480 Hz at 48 kHz: sample k and sample k + 100 agree.
    let mut o = SineOscillator::new(48_000);
    o.set_frequency(480_000);
    let mut phases = Vec::new();
    for _ in 0..220 {
        phases.push(o.advance());
    }
    for k in 0..120 {
        let a = (phases[k] as f64 / 48_000_000.0 * std::f64::consts::TAU).sin();
        let b = (phases[k + 100] as f64 / 48_000_000.0 * std::f64::consts::TAU).sin();
        assert!((a - b).abs() < 1e-12);
    }
}

#[test]
fn sine_phase_stays_in_range() {
    // An awkward rate/frequency pair: the phase still never leaves one
    // cycle width.
    let mut o = SineOscillator::new(44_100);
    o.set_frequency(439_217);
    for _ in 0..10_000 {
        let p = o.advance();
        assert!(p <= 44_100_000);
    }
}

#[test]
fn square_levels_are_exact() {
    let mut o = SquareOscillator::new(48_000);
    o.set_frequency(480_000); // 100 samples per period
    for k in 1..=300u64 {
        let level = o.sample();
        let in_cycle = if k % 100 == 0 { 100 } else { k % 100 };
        if in_cycle < 50 {
            assert_eq!(level, 1);
        } else {
            assert_eq!(level, -1);
        }
    }
}

#[test]
fn parametric_oscillator_increments_and_lazy_rewrap() {
    let mut o = ParametricOscillatorA::new(48_000, EquationA::default_coefficients());
    assert_eq!(o.period, TAU_NANOS);
    assert_eq!(o.frequency, 440_000);
    o.set_frequency(440_000);
    let t1 = o.advance();
    assert_eq!(t1, 440_000u64 * 1_000_000 / 48_000); // 9_166_666 nano-units
    // A new equation halves the period; the phase is kept as it is and only
    // realigns at wrap time.
    o.set_equation(eq(2, 2, 2, 2, 1, 1));
    assert_eq!(o.period, TAU_NANOS / 2);
    assert_eq!(o.phase, t1);
    let t2 = o.advance();
    assert_eq!(t2, t1 + 9_166_666);
}

#[test]
fn parametric_oscillator_wraps_at_period() {
    let mut o = ParametricOscillatorA::new(48_000, eq(100, 100, 100, 100, 1, 1));
    let period = TAU_NANOS / 100;
    assert_eq!(o.period, period);
    o.set_frequency(440_000);
    let inc = 9_166_666u64;
    let mut expected = 0u64;
    for _ in 0..50 {
        expected += inc;
        if expected > period {
            expected -= period;
        }
        let t = o.advance();
        assert_eq!(t, expected);
        assert!(t <= period);
    }
}

#[test]
fn smoother_ramps_up_monotonically_and_lands_exactly() {
    // 0.0 to 1.0 over 5 ms at 48 kHz: 240 steps, exact arrival. (The ramp
    // never overshoots at any intermediate step.)
    let mut s = LinearSmoother::new(5, 0);
    s.set_target(48_000, 1_000_000);
    assert_eq!(s.steps_left, 240);
    let mut last = 0u64;
    for k in 1..=240u64 {
        let v = s.next();
        assert!(v >= last);
        assert!(v <= 1_000_000);
        if k == 240 {
            assert_eq!(v, 1_000_000);
        } else {
            assert_eq!(v, 4_166 * k);
        }
        last = v;
    }
    // Holding thereafter.
    assert_eq!(s.next(), 1_000_000);
    assert_eq!(s.next(), 1_000_000);
}

#[test]
fn smoother_ramps_down_monotonically() {
    let mut s = LinearSmoother::new(5, 1_000_000);
    s.set_target(48_000, 0);
    let mut last = 1_000_000u64;
    for _ in 0..240 {
        let v = s.next();
        assert!(v <= last);
        last = v;
    }
    assert_eq!(last, 0);
}

#[test]
fn smoother_snaps_when_ramp_rounds_to_zero_steps() {
    // 5 ms at a 100 Hz sample rate is zero whole samples: snap immediately.
    let mut s = LinearSmoother::new(5, 7);
    s.set_target(100, 123);
    assert_eq!(s.current, 123);
    assert_eq!(s.next(), 123);
}

#[test]
fn smoother_reset_snaps_without_ramp() {
    let mut s = LinearSmoother::new(5, 0);
    s.set_target(48_000, 1_000_000);
    s.next();
    s.reset(250_000);
    assert_eq!(s.current, 250_000);
    assert_eq!(s.target, 250_000);
    assert_eq!(s.steps_left, 0);
    assert_eq!(s.next(), 250_000);
}

#[test]
fn generator_defaults_match_initial_parameters() {
    let p = Paramic::new(
        48_000,
        paramic::generator::Waveform::Curve,
        EquationA::default_coefficients(),
    );
    assert_eq!(p.sample_rate, 48_000);
    assert_eq!(p.midi_note_id, 0);
    assert_eq!(p.midi_note_freq, 1_000); // 1 Hz sentinel
    assert_eq!(p.midi_note_gain.current, 0);
    assert_eq!(p.midi_note_gain.ramp_ms, 5);
    assert_eq!(p.gain_smoother.current, 20_000_000); // −20 dB
    assert_eq!(p.gain_smoother.ramp_ms, 3);
    assert_eq!(p.freq_smoother.current, 420_000); // 420 Hz
    assert_eq!(p.freq_smoother.ramp_ms, 10);
}
