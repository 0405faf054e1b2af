//! A periodic amplitude gate ("trance gate") for interleaved stereo audio.
//!
//! The effect rhythmically attenuates and restores a signal's volume with a
//! configurable period, symmetry, fade shape, and dry/wet mix.  All timing
//! and envelope arithmetic is exact: durations are given in nanoseconds,
//! the mix factor is a fixed-point fraction, and each frame's amplitude
//! scale is produced as an exact rational number.  A thin floating-point
//! shell can turn those rationals into `f32` multipliers for a real buffer.

pub mod envelope;
pub mod gate;
pub mod params;
