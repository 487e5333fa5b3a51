//! The vocabulary the engine speaks with decoder, output and resampler
//! plugins: probe verdicts, read requests and answers, and conversion
//! configurations. The native plugin surface itself lives outside the
//! library; these types carry its plain values.

use crate::format::AudioFormat;
use vstd::prelude::*;

verus! {

/// A decoder plugin's verdict on whether it can play a piece of content.
#[derive(Clone, Copy, Debug, PartialEq, Eq, Structural)]
pub enum ProbeResult {
    Supported,
    Unsupported,
    Unsure,
}

/// Status a decoder reports when asked for frames.
#[derive(Clone, Copy, Debug, PartialEq, Eq, Structural)]
pub enum ReadStatus {
    DecodingRequest,
    Okay,
    Finished,
    Error,
}

/// How a decoder produces its sound.
#[derive(Clone, Copy, Debug, PartialEq, Eq, Structural)]
pub enum PlaybackType {
    Tracker,
    HardwareEmulated,
    Streamed,
}

/// A read request to, or answer from, a decoder: frame format, frame
/// count and decoding status.
#[derive(Clone, Copy, Debug, PartialEq, Eq, Structural)]
pub struct ReadInfo {
    pub format: AudioFormat,
    pub frame_count: u32,
    pub status: ReadStatus,
    pub virtual_channel_count: u16,
}

/// Static facts a decoder states about a piece of content.
#[derive(Clone, Copy, Debug, PartialEq, Eq, Structural)]
pub struct PlaybackInfo {
    pub virtual_channel_count: u32,
    pub playback_type: PlaybackType,
}

/// A resampler configuration: convert from `input` to `output`.
#[derive(Clone, Copy, Debug, PartialEq, Eq, Structural)]
pub struct ConvertConfig {
    pub input: AudioFormat,
    pub output: AudioFormat,
}

/// Shape of one block an output plugin asks for.
#[derive(Clone, Copy, Debug, PartialEq, Eq, Structural)]
pub struct WriteInfo {
    pub sample_rate: u32,
    pub sample_count: u16,
    pub channel_count: u8,
    pub output_format: u8,
}

/// Whether a probe verdict lets playback go ahead: only a definitive
/// `Supported` counts; `Unsure` and `Unsupported` do not.
pub fn probe_accepted(res: ProbeResult) -> (r: bool)
    ensures
        r <==> res is Supported,
{
    match res {
        ProbeResult::Supported => true,
        ProbeResult::Unsupported => false,
        ProbeResult::Unsure => false,
    }
}

} // verus!
