//! Note events and the equal-tempered note-to-frequency mapping.
//!
//! Control values travel in micro-units: a velocity of 1.0 is 1_000_000.
//! Frequencies are in milli-hertz. The mapping is the A4 = 440 Hz
//! convention: note 69 is exactly 440_000 milli-hertz, and each octave
//! doubles, from a table of the twelve semitones of the lowest octave in
//! micro-hertz.

use vstd::prelude::*;

verus! {

/// What a note event does.
#[derive(Clone, Copy, Debug, PartialEq, Eq, Structural)]
pub enum NoteEventKind {
    /// A key went down: start (or retrigger) the note at this velocity.
    NoteOn { note: u8, velocity_micro: u32 },
    /// A key came up.
    NoteOff { note: u8 },
    /// Aftertouch: re-articulate the sounding note's loudness.
    Pressure { note: u8, pressure_micro: u32 },
}

/// One timestamped event inside a processing block.
#[derive(Clone, Copy, Debug, PartialEq, Eq, Structural)]
pub struct NoteEvent {
    /// The sample index within the block that the event is due at.
    pub timing: u32,
    pub kind: NoteEventKind,
}

impl NoteEvent {
    /// Notes are seven-bit and control values are at most unity.
    pub open spec fn wf(self) -> bool {
        match self.kind {
            NoteEventKind::NoteOn { note, velocity_micro } => note <= 127 && velocity_micro
                <= 1_000_000,
            NoteEventKind::NoteOff { note } => note <= 127,
            NoteEventKind::Pressure { note, pressure_micro } => note <= 127 && pressure_micro
                <= 1_000_000,
        }
    }
}

/// Equal-tempered frequency of semitone `s` of the lowest octave
/// (notes 0 through 11), in micro-hertz: 440 · 2^((s − 69) / 12) · 10^6,
/// rounded to the nearest whole micro-hertz.
pub open spec fn spec_base_micro(s: int) -> int {
    if s == 0 {
        8_175_799
    } else if s == 1 {
        8_661_957
    } else if s == 2 {
        9_177_024
    } else if s == 3 {
        9_722_718
    } else if s == 4 {
        10_300_861
    } else if s == 5 {
        10_913_382
    } else if s == 6 {
        11_562_326
    } else if s == 7 {
        12_249_857
    } else if s == 8 {
        12_978_272
    } else if s == 9 {
        13_750_000
    } else if s == 10 {
        14_567_618
    } else {
        15_433_853
    }
}

pub open spec fn spec_pow2(e: int) -> int
    decreases e,
{
    if e <= 0 {
        1
    } else {
        2 * spec_pow2(e - 1)
    }
}

/// The frequency of a note in milli-hertz: the semitone's base value
/// doubled once per octave, brought from micro- to milli-hertz.
pub open spec fn spec_note_freq_mhz(note: int) -> int {
    (spec_base_micro(note % 12) * spec_pow2(note / 12)) / 1000
}

/// The equal-tempered frequency of a note, in milli-hertz. Note 69 (A4)
/// maps to exactly 440_000.
pub fn note_freq_mhz(note: u8) -> (f: u32)
    requires
        note <= 127,
    ensures
        f == spec_note_freq_mhz(note as int),
        f <= 16_000_000,
{
    let oct = note / 12;
    let s = note % 12;
    let base: u64 = match s {
        0 => 8_175_799,
        1 => 8_661_957,
        2 => 9_177_024,
        3 => 9_722_718,
        4 => 10_300_861,
        5 => 10_913_382,
        6 => 11_562_326,
        7 => 12_249_857,
        8 => 12_978_272,
        9 => 13_750_000,
        10 => 14_567_618,
        _ => 15_433_853,
    };
    let mult: u64 = match oct {
        0 => 1,
        1 => 2,
        2 => 4,
        3 => 8,
        4 => 16,
        5 => 32,
        6 => 64,
        7 => 128,
        8 => 256,
        9 => 512,
        _ => 1024,
    };
    proof {
        reveal_with_fuel(spec_pow2, 12);
        assert(base == spec_base_micro(note as int % 12));
        assert(oct <= 10);
        assert(mult == spec_pow2(note as int / 12));
        assert(base * mult <= 15_433_853 * 1024) by (nonlinear_arith)
            requires
                base <= 15_433_853,
                1 <= mult <= 1024,
        ;
    }
    ((base * mult) / 1000) as u32
}

} // verus!
