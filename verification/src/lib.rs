//! Playback and sample-processing logic of the audiopc audio engine.

pub mod queue;
pub mod state;
pub mod params;
pub mod delay;
pub mod dynamics;
pub mod utilities;
pub mod bands;
pub mod player;
pub mod resample;
pub mod ffi;
pub mod visual;
