//! Core logic of a desktop music visualizer.
//!
//! The library holds the verified heart of the player: the shared playback
//! and visualisation state, the decode-loop state machine with its
//! position accounting, linear-interpolation resampling over fixed-point
//! samples, the spectral band reduction that drives the bar display, the
//! colour randomizer, and the producer side of the playback sample ring.
//! Platform binding (audio device, decoding, FFT, windowing, GUI) lives in
//! the surrounding application, which feeds this library plain values.

pub mod analyzer;
pub mod buttons;
pub mod colour;
pub mod colour_slider;
pub mod element;
pub mod engine;
pub mod geometry;
pub mod playback_state;
pub mod resample;
pub mod ring;
pub mod transport;
pub mod visualisation_state;
