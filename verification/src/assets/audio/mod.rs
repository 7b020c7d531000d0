//! Descriptions of audio assets. Decoding and playback run on an external
//! audio backend; the core only carries the data a backend needs.

pub mod audio_clip;
pub use audio_clip::{AudioClip, ClipCategory};
