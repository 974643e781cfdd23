//! Decode/synchronisation core of an overlay video player.
//!
//! Two producers (video and audio decode) fill bounded buffers that a
//! display-refresh consumer and an audio-hardware callback drain at their own
//! cadence. This crate holds the buffers, the playback gate that couples audio start
//! to the first shown frame, the consumers' and producers' decisions, and the
//! pixel and sample-format conversions, each with a machine-checked contract.

pub mod args;
pub mod audio;
pub mod audio_producer;
pub mod display;
pub mod error;
pub mod frame_queue;
pub mod gate;
pub mod pixel;
pub mod sample_format;
pub mod timing;
pub mod video_producer;
