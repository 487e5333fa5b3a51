//! Audio stream formats and frame/byte arithmetic.

use vstd::prelude::*;

verus! {

/// Sample encoding of a PCM stream.
#[derive(Clone, Copy, Debug, PartialEq, Eq, Structural)]
pub enum AudioStreamFormat {
    U8,
    S16,
    S24,
    S32,
    F32,
}

/// A PCM stream format: sample encoding, channels and rate.
#[derive(Clone, Copy, Debug, PartialEq, Eq, Structural)]
pub struct AudioFormat {
    pub audio_format: AudioStreamFormat,
    pub channel_count: u32,
    pub sample_rate: u32,
}

/// Bytes taken by one sample of the given encoding.
pub open spec fn spec_bytes_per_sample(f: AudioStreamFormat) -> nat {
    match f {
        AudioStreamFormat::U8 => 1,
        AudioStreamFormat::S16 => 2,
        AudioStreamFormat::S24 => 3,
        AudioStreamFormat::S32 => 4,
        AudioStreamFormat::F32 => 4,
    }
}

/// Bytes taken by `frames` frames in format `f`: one sample per channel,
/// `frames` frames.
pub open spec fn spec_byte_size(f: AudioFormat, frames: nat) -> nat {
    spec_bytes_per_sample(f.audio_format) * (f.channel_count as nat) * frames
}

/// Bytes taken by one sample of the given encoding.
pub fn bytes_per_sample(f: AudioStreamFormat) -> (r: usize)
    ensures
        r == spec_bytes_per_sample(f),
{
    match f {
        AudioStreamFormat::U8 => 1,
        AudioStreamFormat::S16 => 2,
        AudioStreamFormat::S24 => 3,
        AudioStreamFormat::S32 => 4,
        AudioStreamFormat::F32 => 4,
    }
}

/// Byte size of `frames` frames in format `format`.
pub fn get_byte_size_format(format: AudioFormat, frames: usize) -> (r: usize)
    requires
        spec_bytes_per_sample(format.audio_format) * format.channel_count <= usize::MAX,
        spec_byte_size(format, frames as nat) <= usize::MAX,
    ensures
        r == spec_byte_size(format, frames as nat),
{
    let stream_size = bytes_per_sample(format.audio_format);
    let per_frame = stream_size * (format.channel_count as usize);
    proof {
        assert(per_frame * frames == spec_byte_size(format, frames as nat))
            by (nonlinear_arith)
            requires
                per_frame == spec_bytes_per_sample(format.audio_format) * format.channel_count,
        ;
    }
    per_frame * frames
}

/// Byte size of `frames` frames in format `format`, `None` when the size
/// does not fit the machine.
pub fn byte_size_checked(format: AudioFormat, frames: usize) -> (r: Option<usize>)
    ensures
        r is Some <==> spec_byte_size(format, frames as nat) <= usize::MAX,
        r is Some ==> r->0 == spec_byte_size(format, frames as nat),
{
    if frames == 0 {
        return Some(0);
    }
    let stream_size = bytes_per_sample(format.audio_format);
    let per_frame_opt = stream_size.checked_mul(format.channel_count as usize);
    match per_frame_opt {
        None => {
            proof {
                assert(spec_byte_size(format, frames as nat) > usize::MAX) by (nonlinear_arith)
                    requires
                        spec_bytes_per_sample(format.audio_format) * format.channel_count
                            > usize::MAX,
                        spec_byte_size(format, frames as nat) == spec_bytes_per_sample(
                            format.audio_format,
                        ) * format.channel_count * frames,
                        frames >= 1,
                ;
            }
            None
        },
        Some(per_frame) => {
            let total = per_frame.checked_mul(frames);
            proof {
                assert(per_frame * frames == spec_byte_size(format, frames as nat))
                    by (nonlinear_arith)
                    requires
                        per_frame == spec_bytes_per_sample(format.audio_format)
                            * format.channel_count,
                ;
            }
            total
        },
    }
}

} // verus!
