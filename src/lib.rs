//! Control and audio-generation core of a polyphonic synthesizer: input
//! debouncing and decoding, the envelope parameter model, voice allocation and
//! the audio ring buffer between the sample producer and the DMA consumer.
use vstd::prelude::*;

pub mod debounce;
pub mod iter;
pub mod audio;
pub mod midi;
pub mod synth;
pub mod drivers;
pub mod control;
pub mod ui;
pub mod sound;
pub mod display_dma;

verus! {

/// Audio sample rate in frames per second.
pub const SAMPLE_RATE: u32 = 48_000;

/// Number of stereo frames the audio ring buffer holds.
pub const AUDIO_BUFFER_SIZE: usize = 1024;

/// Number of 16-bit words in one hardware audio buffer (two words per channel).
pub const DMA_AUDIO_BUFFER_SIZE: usize = 4096;

} // verus!
