//! Sample formats: what the output device plays, what the resampler is asked
//! to produce for it, and which of them the player can write.

use vstd::prelude::*;
use crate::error::PlaybackError;

verus! {

/// The sample format an audio output device negotiates.
#[derive(Clone, Copy, Debug, PartialEq, Eq, Structural)]
pub enum OutputFormat {
    I8,
    I16,
    I32,
    I64,
    U8,
    U16,
    U32,
    U64,
    F32,
    F64,
    /// A format the player has no name for.
    Other,
}

/// The number type of a decoded or resampled sample.
#[derive(Clone, Copy, Debug, PartialEq, Eq, Structural)]
pub enum SampleKind {
    U8,
    I16,
    I32,
    I64,
    F32,
    F64,
}

/// How a frame lays out its channels.
#[derive(Clone, Copy, Debug, PartialEq, Eq, Structural)]
pub enum SampleLayout {
    /// All channels interleaved in one plane.
    Packed,
    /// One plane per channel.
    Planar,
}

/// A sample format as the decoder and the resampler know it.
#[derive(Clone, Copy, Debug, PartialEq, Eq, Structural)]
pub struct ResampleFormat {
    pub kind: SampleKind,
    pub layout: SampleLayout,
}

/// The resampler's target for each device format: samples of the device's
/// own number type, packed. The resampler knows unsigned bytes, signed
/// integers of 16, 32 and 64 bits, and floats of 32 and 64 bits; a device of
/// any other format cannot be fed.
pub open spec fn resample_target(format: OutputFormat) -> Result<ResampleFormat, PlaybackError> {
    match format {
        OutputFormat::U8 => Ok(
            ResampleFormat { kind: SampleKind::U8, layout: SampleLayout::Packed },
        ),
        OutputFormat::I16 => Ok(
            ResampleFormat { kind: SampleKind::I16, layout: SampleLayout::Packed },
        ),
        OutputFormat::I32 => Ok(
            ResampleFormat { kind: SampleKind::I32, layout: SampleLayout::Packed },
        ),
        OutputFormat::I64 => Ok(
            ResampleFormat { kind: SampleKind::I64, layout: SampleLayout::Packed },
        ),
        OutputFormat::F32 => Ok(
            ResampleFormat { kind: SampleKind::F32, layout: SampleLayout::Packed },
        ),
        OutputFormat::F64 => Ok(
            ResampleFormat { kind: SampleKind::F64, layout: SampleLayout::Packed },
        ),
        _ => Err(PlaybackError::UnsupportedResampleFormat),
    }
}

/// The size in bytes of one sample of a device format, where the format has
/// a name.
pub open spec fn output_sample_size(format: OutputFormat) -> Option<nat> {
    match format {
        OutputFormat::I8 | OutputFormat::U8 => Some(1),
        OutputFormat::I16 | OutputFormat::U16 => Some(2),
        OutputFormat::I32 | OutputFormat::U32 | OutputFormat::F32 => Some(4),
        OutputFormat::I64 | OutputFormat::U64 | OutputFormat::F64 => Some(8),
        OutputFormat::Other => None,
    }
}

/// The size in bytes of one sample of a number type.
pub open spec fn kind_sample_size(kind: SampleKind) -> nat {
    match kind {
        SampleKind::U8 => 1,
        SampleKind::I16 => 2,
        SampleKind::I32 | SampleKind::F32 => 4,
        SampleKind::I64 | SampleKind::F64 => 8,
    }
}

/// The resampler is never asked for samples of another size than the
/// device's: where a format has a target, the target is packed and its
/// samples are as wide as the device's.
pub proof fn lemma_target_keeps_sample_size(format: OutputFormat)
    ensures
        resample_target(format) matches Ok(target) ==> {
            &&& target.layout == SampleLayout::Packed
            &&& output_sample_size(format) == Some(kind_sample_size(target.kind))
        },
{
}

/// The sample type of the one writer that exists: 32-bit floats. A device
/// that negotiates anything else cannot be played.
pub open spec fn writer_for(format: OutputFormat) -> Result<SampleKind, PlaybackError> {
    if format == OutputFormat::F32 {
        Ok(SampleKind::F32)
    } else {
        Err(PlaybackError::UnsupportedOutputFormat)
    }
}

impl OutputFormat {
    /// The format to ask the resampler for, so that its output suits a device
    /// of this format, or the startup failure when there is none.
    pub fn as_ffmpeg_sample(&self) -> (target: Result<ResampleFormat, PlaybackError>)
        ensures
            target == resample_target(*self),
    {
        let kind = match self {
            OutputFormat::U8 => SampleKind::U8,
            OutputFormat::I16 => SampleKind::I16,
            OutputFormat::I32 => SampleKind::I32,
            OutputFormat::I64 => SampleKind::I64,
            OutputFormat::F32 => SampleKind::F32,
            OutputFormat::F64 => SampleKind::F64,
            _ => {
                return Err(PlaybackError::UnsupportedResampleFormat);
            },
        };
        Ok(ResampleFormat { kind, layout: SampleLayout::Packed })
    }

    /// The sample type in which the hardware callback writes to a device of
    /// this format, or the startup failure when no writer exists for it.
    pub fn writer(&self) -> (kind: Result<SampleKind, PlaybackError>)
        ensures
            kind == writer_for(*self),
    {
        match self {
            OutputFormat::F32 => Ok(SampleKind::F32),
            _ => Err(PlaybackError::UnsupportedOutputFormat),
        }
    }
}

impl ResampleFormat {
    /// Whether frames of this format interleave their channels in one plane.
    pub fn is_packed(&self) -> (packed: bool)
        ensures
            packed == (self.layout == SampleLayout::Packed),
    {
        self.layout == SampleLayout::Packed
    }
}

} // verus!
