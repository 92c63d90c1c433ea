//! Playback engine for the Speedball II Amiga sound banks.
//!
//! The crate parses a raw sound-bank image into instrument and sequence
//! tables, interprets the byte-coded note sequences, runs the tremolo and
//! vibrato effect state machines, and drives four emulated sample voices.
//! Everything that decides what is played is verified; the floating-point
//! sample rendering and the audio/GUI shell live outside this crate and
//! consume the verified state through the small helpers exposed here.

pub mod effects;
pub mod sample_channel;
pub mod sequence;
pub mod sound_channel;
pub mod sound_data;
pub mod sound_model;
pub mod synth;
