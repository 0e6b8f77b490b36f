//! Parameter store of a chaotic audio oscillator.
//!
//! The oscillator itself is a numerically integrated double pendulum whose
//! angles are mapped to stereo audio; that computation is floating-point
//! throughout and lives in the unverified adapter around this crate. What
//! this crate holds is the host-facing control state: ten automatable knobs,
//! the mapping from knob index to storage cell, the fixed default settings,
//! and the display names of the knobs.

pub mod params;
