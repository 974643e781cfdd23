//! What can go wrong in a session, and what each failure ends.
//!
//! A full buffer is not among the failures: a producer that finds no room
//! waits and tries again, and nothing is dropped.

use vstd::prelude::*;

verus! {

/// A failure of the playback core or of one of its collaborators.
#[derive(Clone, Copy, Debug, PartialEq, Eq, Structural)]
pub enum PlaybackError {
    /// The file has no stream of the kind asked for.
    StreamNotFound,
    /// No audio output device could be had.
    DeviceUnavailable,
    /// The resampler cannot produce the device's sample format.
    UnsupportedResampleFormat,
    /// No writer exists for the device's sample format.
    UnsupportedOutputFormat,
    /// An audio frame keeps its channels in separate planes.
    PlanarAudio,
    /// An audio frame's samples are not of the type asked for.
    SampleTypeMismatch,
    /// A frame's buffer is shorter than its dimensions call for.
    MalformedFrame,
    /// The output surface has fewer pixels than the frame to show on it.
    SurfaceTooSmall,
    /// A packet or frame could not be decoded.
    DecodeFailed,
    /// A decoded frame could not be scaled or resampled.
    ConversionFailed,
}

/// How far a failure reaches.
#[derive(Clone, Copy, Debug, PartialEq, Eq, Structural)]
pub enum Severity {
    /// The session cannot begin.
    FatalStartup,
    /// The producer thread that met the failure ends; the consumers notice
    /// that nothing more arrives and end playback as at the end of the stream.
    FatalThread,
}

/// The reach of each failure: a missing stream, an unusable format or a
/// missing device stops the session before it begins, and a failure while
/// decoding or converting ends the thread it happened in.
pub open spec fn severity_of(error: PlaybackError) -> Severity {
    match error {
        PlaybackError::DecodeFailed | PlaybackError::ConversionFailed => Severity::FatalThread,
        _ => Severity::FatalStartup,
    }
}

impl PlaybackError {
    /// How far this failure reaches.
    pub fn severity(&self) -> (severity: Severity)
        ensures
            severity == severity_of(*self),
    {
        match self {
            PlaybackError::DecodeFailed | PlaybackError::ConversionFailed => Severity::FatalThread,
            _ => Severity::FatalStartup,
        }
    }
}

} // verus!
