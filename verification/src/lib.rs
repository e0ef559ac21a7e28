//! A monophonic audio signal generator.
//!
//! All per-sample state is kept in exact integer fixed point: oscillator
//! phase as ticks over an integer width, frequencies in milli-hertz,
//! control values (velocities, smoothed parameters) in micro-units.
//! Callers evaluate the trigonometric waveforms from the phase records
//! this library produces; everything up to that evaluation is verified.

pub mod events;
pub mod gcd;
pub mod generator;
pub mod oscillators;
pub mod parametric_equation;
pub mod smoother;
