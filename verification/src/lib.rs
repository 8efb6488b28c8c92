//! Two sine waves through the two channels of one audio stream, the second
//! one phase-shifted: the verified parts of the player. `delay` keeps the
//! samples that make up the phase shift, `frames` lays the samples out in a
//! device buffer, and `control` turns key presses into changes of frequency
//! and phase shift and into messages for the audio thread.
pub mod control;
pub mod delay;
pub mod frames;
