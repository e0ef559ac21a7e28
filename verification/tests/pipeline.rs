use paramic::events::{NoteEvent, NoteEventKind};
use paramic::generator::{Paramic, ParamsSnapshot, Waveform};
use paramic::oscillators::WaveSample;
use paramic::parametric_equation::EquationA;

fn note_on(timing: u32, note: u8, velocity_micro: u32) -> NoteEvent {
    NoteEvent { timing, kind: NoteEventKind::NoteOn { note, velocity_micro } }
}

fn note_off(timing: u32, note: u8) -> NoteEvent {
    NoteEvent { timing, kind: NoteEventKind::NoteOff { note } }
}

fn pressure(timing: u32, note: u8, pressure_micro: u32) -> NoteEvent {
    NoteEvent { timing, kind: NoteEventKind::Pressure { note, pressure_micro } }
}

fn curve_generator() -> Paramic {
    Paramic::new(48_000, Waveform::Curve, EquationA::default_coefficients())
}

fn snapshot(use_midi: bool) -> ParamsSnapshot {
    ParamsSnapshot {
        gain_atten_micro: 20_000_000,
        frequency_mhz: 420_000,
        use_midi,
        equation: EquationA::default_coefficients(),
    }
}

#[test]
fn note_state_machine_stale_events_ignored() {
    let mut p = curve_generator();
    // A note-on always takes over.
    p.apply_event(note_on(0, 60, 800_000));
    assert_eq!(p.midi_note_id, 60);
    assert_eq!(p.midi_note_freq, 261_625);
    assert_eq!(p.midi_note_gain.target, 800_000);
    // A note-off for another note is a stale release: ignored entirely.
    p.apply_event(note_off(0, 61));
    assert_eq!(p.midi_note_id, 60);
    assert_eq!(p.midi_note_gain.target, 800_000);
    // A repeated note-on is not deduplicated; it retriggers the same target.
    p.apply_event(note_on(0, 60, 800_000));
    assert_eq!(p.midi_note_gain.target, 800_000);
    // Pressure on the sounding note re-articulates the envelope target.
    p.apply_event(pressure(0, 60, 500_000));
    assert_eq!(p.midi_note_gain.target, 500_000);
    // Pressure on any other note is ignored.
    p.apply_event(pressure(0, 62, 900_000));
    assert_eq!(p.midi_note_gain.target, 500_000);
    // The matching note-off releases: target zero, note id untouched.
    p.apply_event(note_off(0, 60));
    assert_eq!(p.midi_note_gain.target, 0);
    assert_eq!(p.midi_note_id, 60);
}

#[test]
fn note_on_overrides_previous_note() {
    let mut p = curve_generator();
    p.apply_event(note_on(0, 60, 700_000));
    p.apply_event(note_on(0, 64, 900_000));
    assert_eq!(p.midi_note_id, 64);
    assert_eq!(p.midi_note_gain.target, 900_000);
    // The old note's release is now stale.
    p.apply_event(note_off(0, 60));
    assert_eq!(p.midi_note_gain.target, 900_000);
}

#[test]
fn reset_restores_sentinels() {
    let mut p = curve_generator();
    p.apply_event(note_on(0, 72, 1_000_000));
    p.midi_note_gain.next();
    p.reset();
    assert_eq!(p.midi_note_id, 0);
    assert_eq!(p.midi_note_freq, 1_000);
    assert_eq!(p.midi_note_gain.current, 0);
    assert_eq!(p.midi_note_gain.target, 0);
    assert_eq!(p.midi_note_gain.steps_left, 0);
}

#[test]
fn silent_after_reset() {
    // Reset, then a note-mode block with no events: every record carries a
    // note gain of zero, so the output is silence whatever the gain does.
    let mut p = curve_generator();
    p.apply_event(note_on(0, 60, 1_000_000));
    let _ = p.process(&snapshot(true), &vec![], 32);
    p.reset();
    let out = p.process(&snapshot(true), &vec![], 64);
    assert_eq!(out.len(), 64);
    for ctl in &out {
        assert_eq!(ctl.note_gain_micro, 0);
    }
}

#[test]
fn events_are_sample_accurate() {
    // A note-on at sample 0 and its release scheduled for sample 2: the
    // release must not act before the loop reaches sample 2. Envelope ramp:
    // 5 ms at 48 kHz is 240 steps, so the attack step is 1_000_000 / 240 =
    // 4_166 and the release step from 8_332 is 8_332 / 240 = 34.
    let mut p = curve_generator();
    let events = vec![note_on(0, 69, 1_000_000), note_off(2, 69)];
    let out = p.process(&snapshot(true), &events, 5);
    assert_eq!(out[0].note_gain_micro, 4_166);
    assert_eq!(out[1].note_gain_micro, 8_332);
    assert_eq!(out[2].note_gain_micro, 8_332 - 34);
    assert_eq!(out[3].note_gain_micro, 8_332 - 2 * 34);
    assert_eq!(out[4].note_gain_micro, 8_332 - 3 * 34);
}

#[test]
fn events_beyond_the_block_stay_undrained() {
    let mut p = curve_generator();
    // Due after the block's last sample: never applied.
    let events = vec![note_on(10, 64, 900_000)];
    let _ = p.process(&snapshot(true), &events, 4);
    assert_eq!(p.midi_note_id, 0);
    assert_eq!(p.midi_note_gain.target, 0);
}

#[test]
fn gain_retarget_ramps_from_the_first_sample() {
    // The block's snapshot moves the gain target from −20 dB to −10 dB:
    // 3 ms at 48 kHz is 144 steps of (20_000_000 − 10_000_000) / 144 =
    // 69_444 micro-decibels, downward in attenuation.
    let mut p = curve_generator();
    let snap = ParamsSnapshot { gain_atten_micro: 10_000_000, ..snapshot(false) };
    let out = p.process(&snap, &vec![], 3);
    assert_eq!(out[0].gain_atten_micro, 20_000_000 - 69_444);
    assert_eq!(out[1].gain_atten_micro, 20_000_000 - 2 * 69_444);
    assert_eq!(out[2].gain_atten_micro, 20_000_000 - 3 * 69_444);
}

#[test]
fn parameter_mode_uses_unity_note_gain() {
    let mut p = curve_generator();
    let out = p.process(&snapshot(false), &vec![], 8);
    for ctl in &out {
        assert_eq!(ctl.note_gain_micro, 1_000_000);
        assert_eq!(ctl.gain_atten_micro, 20_000_000);
    }
}

#[test]
fn sine_path_matches_reference_table() {
    // Parameter mode, 440 Hz constant, −20 dB, 48 kHz: the records must
    // reproduce a directly computed sine table scaled by the linear gain.
    let mut p = Paramic::new(48_000, Waveform::Sine, EquationA::default_coefficients());
    p.freq_smoother.reset(440_000); // the host starts the parameter at 440 Hz
    let snap = ParamsSnapshot { frequency_mhz: 440_000, ..snapshot(false) };
    let out = p.process(&snap, &vec![], 64);
    assert_eq!(out.len(), 64);
    let linear_gain = 10f64.powf(-20.0 / 20.0);
    for (k, ctl) in out.iter().enumerate() {
        let (num, den) = match ctl.wave {
            WaveSample::SinePhase { num, den } => (num, den),
            _ => panic!("sine generator must yield sine phases"),
        };
        assert_eq!(den, 48_000_000);
        assert_eq!(num, 440_000 * (k as u64 + 1));
        let produced = (num as f64 / den as f64 * std::f64::consts::TAU).sin() * linear_gain
            * (ctl.note_gain_micro as f64 / 1e6);
        let reference = ((k + 1) as f64 * 440.0 / 48_000.0 * std::f64::consts::TAU).sin() * 0.1;
        assert!((produced - reference).abs() < 1e-9);
    }
}

#[test]
fn square_path_levels_through_process() {
    let mut p = Paramic::new(48_000, Waveform::Square, EquationA::default_coefficients());
    p.freq_smoother.reset(480_000); // 100 samples per period
    let snap = ParamsSnapshot { frequency_mhz: 480_000, ..snapshot(false) };
    let out = p.process(&snap, &vec![], 100);
    for (k, ctl) in out.iter().enumerate() {
        let level = match ctl.wave {
            WaveSample::SquareLevel { level } => level,
            _ => panic!("square generator must yield square levels"),
        };
        if k + 1 < 50 {
            assert_eq!(level, 1);
        } else {
            assert_eq!(level, -1);
        }
    }
}

#[test]
fn initialize_adopts_host_rate() {
    let mut p = curve_generator();
    p.initialize(44_100);
    assert_eq!(p.sample_rate, 44_100);
    let snap = snapshot(true);
    // The envelope ramp now spans 5 ms of the new rate: 220 steps, and
    // 1_000_000 / 220 == 4_545 per step.
    let events = vec![note_on(0, 69, 1_000_000)];
    let out = p.process(&snap, &events, 1);
    assert_eq!(out[0].note_gain_micro, 4_545);
}

#[test]
fn default_snapshot_matches_parameter_metadata() {
    let s = ParamsSnapshot::default();
    assert_eq!(s.gain_atten_micro, 20_000_000);
    assert_eq!(s.frequency_mhz, 420_000);
    assert!(!s.use_midi);
    assert_eq!(s.equation.a, 1);
    assert_eq!(s.equation.b, 7);
}
