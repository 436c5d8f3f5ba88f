//! Configuration and control logic for an audio-reactive LED strip:
//! device settings and their defaults, the device-selection step, the
//! console setup dialogue, and the generation of a random start-up strip.

pub mod config;
pub mod console;
pub mod leds;
