//! The signal generator: a monophonic tone source driven either by a
//! frequency/gain parameter pair or by incoming note events.
//!
//! Each processed sample yields a `SampleControl` record — the advanced
//! oscillator phase, the note envelope value and the smoothed gain — from
//! which the caller computes the amplitude: the waveform value times the
//! note gain (in micro-units) attenuated by the gain value (micro-decibels
//! below 0 dB). Everything up to that floating-point evaluation happens
//! here, exactly, in integers.

use vstd::prelude::*;
use crate::events::{NoteEvent, NoteEventKind, note_freq_mhz, spec_note_freq_mhz};
use crate::oscillators::{OscillatorUnit, WaveSample, SineOscillator, SquareOscillator,
    ParametricOscillatorA};
use crate::parametric_equation::EquationA;
use crate::smoother::{LinearSmoother, lemma_next_props};

verus! {

/// Which waveform a generator is configured to produce.
#[derive(Clone, Copy, Debug, PartialEq, Eq, Structural)]
pub enum Waveform {
    Sine,
    Square,
    Curve,
}

/// A read-only snapshot of the host-owned parameters, taken once per
/// processing block.
#[derive(Clone, Copy, Debug)]
pub struct ParamsSnapshot {
    /// Gain parameter: attenuation below 0 dB, in micro-decibels
    /// (the parameter's range of −30..0 dB maps to 30_000_000..0).
    pub gain_atten_micro: u64,
    /// Frequency parameter, in milli-hertz.
    pub frequency_mhz: u32,
    /// True when note events drive the generator instead of the frequency
    /// parameter.
    pub use_midi: bool,
    /// The curve coefficients, read once per block.
    pub equation: EquationA,
}

impl ParamsSnapshot {
    pub open spec fn wf(self) -> bool {
        &&& self.equation.wf()
        &&& self.frequency_mhz <= 20_000_000
        &&& self.gain_atten_micro <= 30_000_000
    }
}

impl Default for ParamsSnapshot {
    /// The parameters' initial values: −20 dB, 420 Hz, parameter-driven.
    fn default() -> (s: ParamsSnapshot)
        ensures
            s.wf(),
            s.gain_atten_micro == 20_000_000,
            s.frequency_mhz == 420_000,
            !s.use_midi,
            s.equation == EquationA::spec_default(),
    {
        ParamsSnapshot {
            gain_atten_micro: 20_000_000,
            frequency_mhz: 420_000,
            use_midi: false,
            equation: EquationA::default_coefficients(),
        }
    }
}

/// What one sample of the render loop determined.
#[derive(Clone, Copy, Debug, PartialEq, Eq, Structural)]
pub struct SampleControl {
    /// The advanced waveform state; the caller evaluates its amplitude.
    pub wave: WaveSample,
    /// The note envelope after this sample, in micro-units; held at
    /// 1_000_000 (unity) when the generator is parameter-driven.
    pub note_gain_micro: u64,
    /// The smoothed gain after this sample: attenuation in micro-decibels.
    pub gain_atten_micro: u64,
}

/// The generator. One active note at most; a stale note-off or pressure
/// event for any other note is ignored.
pub struct Paramic {
    /// Samples per second; at least 1. A placeholder of 1 until the host
    /// reports the real rate.
    pub sample_rate: u32,
    /// The oscillator, in the configured waveform.
    pub oscillator: OscillatorUnit,
    /// The note id of the active note; 0 doubles as the initial sentinel.
    pub midi_note_id: u8,
    /// The frequency of the active note in milli-hertz; 1 Hz sentinel.
    pub midi_note_freq: u32,
    /// The attack/release envelope driven by velocity and aftertouch;
    /// micro-units, 5 ms linear ramp.
    pub midi_note_gain: LinearSmoother,
    /// Smoothing of the gain parameter; micro-decibels of attenuation,
    /// 3 ms linear ramp.
    pub gain_smoother: LinearSmoother,
    /// Smoothing of the frequency parameter; milli-hertz, 10 ms linear ramp.
    pub freq_smoother: LinearSmoother,
}

impl Paramic {
    pub open spec fn wf(self) -> bool {
        &&& self.sample_rate >= 1
        &&& self.oscillator.wf()
        &&& self.midi_note_gain.wf()
        &&& self.gain_smoother.wf()
        &&& self.freq_smoother.wf()
        &&& self.freq_smoother.current <= 20_000_000
        &&& self.freq_smoother.target <= 20_000_000
        &&& self.midi_note_freq <= 20_000_000
    }

    /// The oscillator a fresh generator starts with.
    pub open spec fn spec_initial_oscillator(
        sample_rate: u32,
        waveform: Waveform,
        equation: EquationA,
    ) -> OscillatorUnit {
        match waveform {
            Waveform::Sine => OscillatorUnit::Sine(
                SineOscillator { sample_rate, phase: 0, frequency: 440_000 },
            ),
            Waveform::Square => OscillatorUnit::Square(
                SquareOscillator { sample_rate, phase: 0, frequency: 440_000 },
            ),
            Waveform::Curve => OscillatorUnit::Curve(
                ParametricOscillatorA {
                    sample_rate,
                    phase: 0,
                    frequency: 440_000,
                    equation,
                    period: equation.spec_period_nanos() as u64,
                },
            ),
        }
    }

    /// A generator in the configured waveform, at rest: no active note, the
    /// envelope at zero, the parameters' smoothers at their initial values.
    pub fn new(sample_rate: u32, waveform: Waveform, equation: EquationA) -> (p: Paramic)
        requires
            sample_rate >= 1,
            equation.wf(),
        ensures
            p.wf(),
            p.sample_rate == sample_rate,
            p.oscillator == Paramic::spec_initial_oscillator(sample_rate, waveform, equation),
            p.midi_note_id == 0,
            p.midi_note_freq == 1000,
            p.midi_note_gain.current == 0 && p.midi_note_gain.target == 0
                && p.midi_note_gain.steps_left == 0 && p.midi_note_gain.ramp_ms == 5,
            p.gain_smoother.current == 20_000_000 && p.gain_smoother.target == 20_000_000
                && p.gain_smoother.steps_left == 0 && p.gain_smoother.ramp_ms == 3,
            p.freq_smoother.current == 420_000 && p.freq_smoother.target == 420_000
                && p.freq_smoother.steps_left == 0 && p.freq_smoother.ramp_ms == 10,
    {
        let oscillator = match waveform {
            Waveform::Sine => OscillatorUnit::Sine(SineOscillator::new(sample_rate)),
            Waveform::Square => OscillatorUnit::Square(SquareOscillator::new(sample_rate)),
            Waveform::Curve => OscillatorUnit::Curve(
                ParametricOscillatorA::new(sample_rate, equation),
            ),
        };
        Paramic {
            sample_rate,
            oscillator,
            midi_note_id: 0,
            midi_note_freq: 1000,
            midi_note_gain: LinearSmoother::new(5, 0),
            gain_smoother: LinearSmoother::new(3, 20_000_000),
            freq_smoother: LinearSmoother::new(10, 420_000),
        }
    }

    /// Adopt the host's sample rate, as on (re-)activation.
    pub fn initialize(&mut self, sample_rate: u32)
        requires
            old(self).wf(),
            sample_rate >= 1,
        ensures
            final(self).wf(),
            final(self).sample_rate == sample_rate,
            final(self).oscillator == old(self).oscillator.spec_with_sample_rate(sample_rate),
            final(self).midi_note_id == old(self).midi_note_id,
            final(self).midi_note_freq == old(self).midi_note_freq,
            final(self).midi_note_gain == old(self).midi_note_gain,
            final(self).gain_smoother == old(self).gain_smoother,
            final(self).freq_smoother == old(self).freq_smoother,
    {
        self.sample_rate = sample_rate;
        self.oscillator.set_sample_rate(sample_rate);
    }

    /// Stream reset: drop the active note back to the sentinel and snap the
    /// envelope to silence. The parameter smoothers and the oscillator
    /// phase are left alone, as on the original stream.
    pub fn reset(&mut self)
        requires
            old(self).wf(),
        ensures
            final(self).wf(),
            final(self).midi_note_id == 0,
            final(self).midi_note_freq == 1000,
            final(self).midi_note_gain.current == 0 && final(self).midi_note_gain.target == 0
                && final(self).midi_note_gain.steps_left == 0,
            final(self).midi_note_gain.ramp_ms == old(self).midi_note_gain.ramp_ms,
            final(self).sample_rate == old(self).sample_rate,
            final(self).oscillator == old(self).oscillator,
            final(self).gain_smoother == old(self).gain_smoother,
            final(self).freq_smoother == old(self).freq_smoother,
    {
        self.midi_note_id = 0;
        self.midi_note_freq = 1000;
        self.midi_note_gain.reset(0);
    }

    /// The generator after one event is applied: a note-on always takes
    /// over as the active note and retargets the envelope at its velocity;
    /// a note-off or pressure event only touches the envelope when its note
    /// matches the active note, and is ignored otherwise.
    pub open spec fn spec_apply_event(self, event: NoteEvent) -> Paramic {
        match event.kind {
            NoteEventKind::NoteOn { note, velocity_micro } => Paramic {
                midi_note_id: note,
                midi_note_freq: spec_note_freq_mhz(note as int) as u32,
                midi_note_gain: self.midi_note_gain.spec_set_target(
                    self.sample_rate,
                    velocity_micro as u64,
                ),
                ..self
            },
            NoteEventKind::NoteOff { note } => if note == self.midi_note_id {
                Paramic {
                    midi_note_gain: self.midi_note_gain.spec_set_target(self.sample_rate, 0),
                    ..self
                }
            } else {
                self
            },
            NoteEventKind::Pressure { note, pressure_micro } => if note == self.midi_note_id {
                Paramic {
                    midi_note_gain: self.midi_note_gain.spec_set_target(
                        self.sample_rate,
                        pressure_micro as u64,
                    ),
                    ..self
                }
            } else {
                self
            },
        }
    }

    /// Apply one note event to the note-tracking state.
    pub fn apply_event(&mut self, event: NoteEvent)
        requires
            old(self).wf(),
            event.wf(),
        ensures
            *final(self) == old(self).spec_apply_event(event),
            final(self).wf(),
    {
        match event.kind {
            NoteEventKind::NoteOn { note, velocity_micro } => {
                self.midi_note_id = note;
                self.midi_note_freq = note_freq_mhz(note);
                self.midi_note_gain.set_target(self.sample_rate, velocity_micro as u64);
            },
            NoteEventKind::NoteOff { note } => {
                if note == self.midi_note_id {
                    self.midi_note_gain.set_target(self.sample_rate, 0);
                }
            },
            NoteEventKind::Pressure { note, pressure_micro } => {
                if note == self.midi_note_id {
                    self.midi_note_gain.set_target(self.sample_rate, pressure_micro as u64);
                }
            },
        }
    }

    /// The state and next undrained event index after consuming, in order,
    /// every event due at or before `sample_id`, starting at index `i`.
    /// Events due later in the block stay where they are until the loop
    /// reaches their sample — event timing is sample-accurate, not
    /// block-quantized.
    pub open spec fn spec_drain(self, events: Seq<NoteEvent>, i: int, sample_id: int) -> (
        Paramic,
        int,
    )
        decreases events.len() - i,
    {
        if 0 <= i < events.len() && events[i].timing <= sample_id {
            self.spec_apply_event(events[i]).spec_drain(events, i + 1, sample_id)
        } else {
            (self, i)
        }
    }

    fn drain_events(&mut self, events: &Vec<NoteEvent>, next: usize, sample_id: u32) -> (ni: usize)
        requires
            old(self).wf(),
            next <= events@.len(),
            forall|k: int| 0 <= k < events@.len() ==> (#[trigger] events@[k]).wf(),
        ensures
            final(self).wf(),
            ni <= events@.len(),
            ({
                let (g, j) = old(self).spec_drain(events@, next as int, sample_id as int);
                *final(self) == g && ni == j
            }),
    {
        let ghost drained = self.spec_drain(events@, next as int, sample_id as int);
        let mut i: usize = next;
        while i < events.len() && events[i].timing <= sample_id
            invariant
                self.wf(),
                next <= i <= events@.len(),
                forall|k: int| 0 <= k < events@.len() ==> (#[trigger] events@[k]).wf(),
                drained == self.spec_drain(events@, i as int, sample_id as int),
            decreases events@.len() - i,
        {
            let e = events[i];
            self.apply_event(e);
            i = i + 1;
        }
        i
    }

    /// The state, next event index and control record produced by one
    /// sample: the gain smoother always advances first; in note mode the
    /// due events are drained, the oscillator runs at the active note's
    /// frequency and the envelope advances; in parameter mode the frequency
    /// smoother advances and feeds the oscillator directly, the envelope is
    /// untouched, and the record carries unity note gain.
    pub open spec fn spec_render_sample(
        self,
        snap: ParamsSnapshot,
        events: Seq<NoteEvent>,
        ei: int,
        sample_id: int,
    ) -> (Paramic, int, SampleControl) {
        let g = Paramic { gain_smoother: self.gain_smoother.spec_next(), ..self };
        let gain_v = g.gain_smoother.current;
        if snap.use_midi {
            let (g1, ei1) = g.spec_drain(events, ei, sample_id);
            let osc = g1.oscillator.spec_with_frequency(g1.midi_note_freq);
            let g2 = Paramic {
                oscillator: osc.spec_advanced(),
                midi_note_gain: g1.midi_note_gain.spec_next(),
                ..g1
            };
            (
                g2,
                ei1,
                SampleControl {
                    wave: osc.spec_advance_out(),
                    note_gain_micro: g2.midi_note_gain.current,
                    gain_atten_micro: gain_v,
                },
            )
        } else {
            let fs = g.freq_smoother.spec_next();
            let osc = g.oscillator.spec_with_frequency(fs.current as u32);
            let g2 = Paramic { freq_smoother: fs, oscillator: osc.spec_advanced(), ..g };
            (
                g2,
                ei,
                SampleControl {
                    wave: osc.spec_advance_out(),
                    note_gain_micro: 1_000_000,
                    gain_atten_micro: gain_v,
                },
            )
        }
    }

    fn render_sample(
        &mut self,
        snapshot: &ParamsSnapshot,
        events: &Vec<NoteEvent>,
        ei: usize,
        sample_id: u32,
    ) -> (r: (usize, SampleControl))
        requires
            old(self).wf(),
            ei <= events@.len(),
            forall|k: int| 0 <= k < events@.len() ==> (#[trigger] events@[k]).wf(),
        ensures
            final(self).wf(),
            r.0 <= events@.len(),
            ({
                let (g, j, c) = old(self).spec_render_sample(
                    *snapshot,
                    events@,
                    ei as int,
                    sample_id as int,
                );
                *final(self) == g && r.0 == j && r.1 == c
            }),
    {
        let gain_v = self.gain_smoother.next();
        if snapshot.use_midi {
            let ei1 = self.drain_events(events, ei, sample_id);
            let freq = self.midi_note_freq;
            let w = self.calculate_sample(freq);
            let env = self.midi_note_gain.next();
            (ei1, SampleControl { wave: w, note_gain_micro: env, gain_atten_micro: gain_v })
        } else {
            let f = self.freq_smoother.next();
            let w = self.calculate_sample(f as u32);
            (ei, SampleControl { wave: w, note_gain_micro: 1_000_000, gain_atten_micro: gain_v })
        }
    }

    /// The per-block preparation: the block's coefficients are stored (and
    /// with them the period), and a parameter target that differs from the
    /// smoother's current target starts a new ramp toward it.
    pub open spec fn spec_prepare(self, snap: ParamsSnapshot) -> Paramic {
        let g0 = Paramic { oscillator: self.oscillator.spec_with_equation(snap.equation), ..self };
        let g1 = if g0.gain_smoother.target != snap.gain_atten_micro {
            Paramic {
                gain_smoother: g0.gain_smoother.spec_set_target(
                    g0.sample_rate,
                    snap.gain_atten_micro,
                ),
                ..g0
            }
        } else {
            g0
        };
        if g1.freq_smoother.target != snap.frequency_mhz as u64 {
            Paramic {
                freq_smoother: g1.freq_smoother.spec_set_target(
                    g1.sample_rate,
                    snap.frequency_mhz as u64,
                ),
                ..g1
            }
        } else {
            g1
        }
    }

    /// The state, final event index and record sequence of samples
    /// `i` through `n`, rendered in order from this state.
    pub open spec fn spec_process_from(
        self,
        snap: ParamsSnapshot,
        events: Seq<NoteEvent>,
        ei: int,
        i: int,
        n: int,
    ) -> (Paramic, int, Seq<SampleControl>)
        decreases n - i,
    {
        if i < n {
            let (g1, ei1, ctl) = self.spec_render_sample(snap, events, ei, i);
            let (gf, ef, rest) = g1.spec_process_from(snap, events, ei1, i + 1, n);
            (gf, ef, seq![ctl] + rest)
        } else {
            (self, ei, Seq::<SampleControl>::empty())
        }
    }

    /// Render one processing block of `num_samples` samples against a
    /// parameter snapshot and its time-ordered event list, producing one
    /// control record per sample.
    pub fn process(
        &mut self,
        snapshot: &ParamsSnapshot,
        events: &Vec<NoteEvent>,
        num_samples: usize,
    ) -> (out: Vec<SampleControl>)
        requires
            old(self).wf(),
            snapshot.wf(),
            forall|k: int| 0 <= k < events@.len() ==> (#[trigger] events@[k]).wf(),
            num_samples <= u32::MAX,
        ensures
            final(self).wf(),
            out@.len() == num_samples,
            ({
                let (gf, ef, outs) = old(self).spec_prepare(*snapshot).spec_process_from(
                    *snapshot,
                    events@,
                    0,
                    0,
                    num_samples as int,
                );
                *final(self) == gf && out@ == outs
            }),
    {
        self.oscillator.set_equation(snapshot.equation);
        if self.gain_smoother.target != snapshot.gain_atten_micro {
            let sr = self.sample_rate;
            self.gain_smoother.set_target(sr, snapshot.gain_atten_micro);
        }
        if self.freq_smoother.target != snapshot.frequency_mhz as u64 {
            let sr = self.sample_rate;
            self.freq_smoother.set_target(sr, snapshot.frequency_mhz as u64);
        }
        let ghost g1 = *self;
        proof {
            assert(g1 == old(self).spec_prepare(*snapshot));
        }
        let ghost n = num_samples as int;
        let ghost full = g1.spec_process_from(*snapshot, events@, 0, 0, n);
        let mut out: Vec<SampleControl> = Vec::new();
        let mut ei: usize = 0;
        let mut i: usize = 0;
        proof {
            assert(full.2 == out@ + full.2);
            assert(out@ + full.2 =~= full.2);
        }
        while i < num_samples
            invariant
                self.wf(),
                i <= num_samples,
                ei <= events@.len(),
                snapshot.wf(),
                forall|k: int| 0 <= k < events@.len() ==> (#[trigger] events@[k]).wf(),
                num_samples <= u32::MAX,
                n == num_samples as int,
                out@.len() == i,
                full == g1.spec_process_from(*snapshot, events@, 0, 0, n),
                ({
                    let (gf, ef, rest) = self.spec_process_from(
                        *snapshot,
                        events@,
                        ei as int,
                        i as int,
                        n,
                    );
                    full.0 == gf && full.1 == ef && full.2 == out@ + rest
                }),
            decreases num_samples - i,
        {
            let ghost out_pre = out@;
            let (ei2, ctl) = self.render_sample(snapshot, events, ei, i as u32);
            ei = ei2;
            out.push(ctl);
            i = i + 1;
            proof {
                let (gf, ef, rest_new) = self.spec_process_from(
                    *snapshot,
                    events@,
                    ei as int,
                    i as int,
                    n,
                );
                assert(out_pre + (seq![ctl] + rest_new) =~= out_pre.push(ctl) + rest_new);
            }
        }
        proof {
            let (gf, ef, rest) = self.spec_process_from(*snapshot, events@, ei as int, n, n);
            assert(out@ + rest =~= out@);
        }
        out
    }

    /// Point the oscillator at a frequency and advance it one sample.
    pub fn calculate_sample(&mut self, frequency: u32) -> (w: WaveSample)
        requires
            old(self).wf(),
        ensures
            final(self).wf(),
            final(self).oscillator == old(self).oscillator.spec_with_frequency(
                frequency,
            ).spec_advanced(),
            w == old(self).oscillator.spec_with_frequency(frequency).spec_advance_out(),
            final(self).sample_rate == old(self).sample_rate,
            final(self).midi_note_id == old(self).midi_note_id,
            final(self).midi_note_freq == old(self).midi_note_freq,
            final(self).midi_note_gain == old(self).midi_note_gain,
            final(self).gain_smoother == old(self).gain_smoother,
            final(self).freq_smoother == old(self).freq_smoother,
    {
        self.oscillator.set_frequency(frequency);
        self.oscillator.advance()
    }
}

impl Default for Paramic {
    /// The generator as first constructed: a sample-rate placeholder of 1
    /// until the host reports the real rate, the curve waveform at the
    /// parameters' default coefficients, no active note.
    fn default() -> (p: Paramic)
        ensures
            p.wf(),
            p.sample_rate == 1,
            p.oscillator == Paramic::spec_initial_oscillator(
                1,
                Waveform::Curve,
                EquationA::spec_default(),
            ),
            p.midi_note_id == 0,
            p.midi_note_freq == 1000,
            p.midi_note_gain.current == 0 && p.midi_note_gain.target == 0
                && p.midi_note_gain.steps_left == 0 && p.midi_note_gain.ramp_ms == 5,
    {
        Paramic::new(1, Waveform::Curve, EquationA::default_coefficients())
    }
}

/// After a stream reset, with no events to consume and no time elapsed in
/// the world outside, a note-mode block is silent: the note envelope rests
/// at zero, so every record it produces carries a note gain of zero and the
/// output amplitude is zero times any gain.
pub proof fn lemma_silent_after_reset(
    g: Paramic,
    snap: ParamsSnapshot,
    ei: int,
    i: int,
    n: int,
)
    requires
        g.wf(),
        g.midi_note_gain.current == 0,
        g.midi_note_gain.target == 0,
        g.midi_note_gain.steps_left == 0,
        snap.use_midi,
    ensures
        ({
            let (gf, ef, outs) = g.spec_process_from(snap, Seq::<NoteEvent>::empty(), ei, i, n);
            &&& (forall|j: int| 0 <= j < outs.len() ==> outs[j].note_gain_micro == 0)
            &&& gf.midi_note_gain.current == 0
        }),
    decreases (if i < n {
        n - i
    } else {
        0
    }),
{
    let events = Seq::<NoteEvent>::empty();
    if i < n {
        let (g1, ei1, ctl) = g.spec_render_sample(snap, events, ei, i);
        let ga = Paramic { gain_smoother: g.gain_smoother.spec_next(), ..g };
        lemma_next_props(g.gain_smoother);
        assert(ga.spec_drain(events, ei, i) == (ga, ei));
        assert(g1.midi_note_gain == g.midi_note_gain.spec_next());
        assert(g1.midi_note_gain.current == 0);
        assert(g1.wf());
        lemma_silent_after_reset(g1, snap, ei1, i + 1, n);
        let (gf, ef, rest) = g1.spec_process_from(snap, events, ei1, i + 1, n);
        let outs = g.spec_process_from(snap, events, ei, i, n).2;
        assert(outs == seq![ctl] + rest);
        assert forall|j: int| 0 <= j < outs.len() implies outs[j].note_gain_micro == 0 by {
            if j == 0 {
                assert(outs[0] == ctl);
            } else {
                assert(outs[j] == rest[j - 1]);
            }
        }
    }
}

} // verus!
