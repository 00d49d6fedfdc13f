//! Scheduling and buffer arithmetic of a granular synthesizer that feeds a
//! stereo feedback delay.
//!
//! Every type is generic over the sample type `S`: the library moves samples
//! around and decides which ones are read and written, and leaves the
//! arithmetic on them to its caller.

pub mod control;
pub mod delay;
pub mod dsp;
pub mod grain;
pub mod granular;
pub mod saturation;
