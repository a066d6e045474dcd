//! Core of a push-to-talk dictation utility: the recording/transcription
//! state machine, the audio capture buffer with its mono downmix and level
//! meter, the rate conversion stage, the transcription post-processing and
//! paste sequencing rules, and the model catalog and download manager.
//!
//! Audio samples are carried as fixed-point values: an `i32` counting units
//! of 1/32768 of full scale, so that the unit interval [-1, 1] maps to
//! [-32768, 32768]. The embedding application converts device samples to and
//! from this representation at the capture and inference boundaries.

pub mod audio;
pub mod catalog;
pub mod devices;
pub mod download;
pub mod engine;
pub mod level;
pub mod paste;
pub mod resample;
pub mod state;
