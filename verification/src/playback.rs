//! The playback engine.
//!
//! The engine owns the ring buffer and a queue of decoder instances; slot
//! zero is the one being decoded. Each step of its loop is a function
//! here: [`PlaybackInternal::decode_request`] decides whether more frames
//! are wanted (the backpressure gate), [`PlaybackInternal::apply_decode`]
//! takes what the decoder produced and either copies it into the ring or
//! asks for a resampler pass, [`PlaybackInternal::get_data`] serves one
//! data request from the output callback. Calls into decoder and
//! resampler plugins happen outside the library; their results come back
//! in as plain values.

use crate::abi::ConvertConfig;
use crate::abi::ReadInfo;
use crate::abi::ReadStatus;
use crate::format::byte_size_checked;
use crate::format::get_byte_size_format;
use crate::format::spec_byte_size;
use crate::format::spec_bytes_per_sample;
use crate::format::AudioFormat;
use crate::format::AudioStreamFormat;
use crate::ring::RingBuffer;
use vstd::prelude::*;

verus! {

/// Frames asked of the decoder per engine step.
pub const DECODE_FRAME_COUNT: u32 = 1024;

/// Seconds of audio the ring buffer holds.
pub const RING_BUFFER_SECONDS: u32 = 2;

/// Tuning knobs of the engine.
#[derive(Default)]
pub struct PlaybackSettings {
    /// How many ms to pre-buffer.
    pub buffer_len_ms: usize,
    /// Max CPU load in percent on the decoder thread.
    pub max_cpu_load: usize,
}

/// The canonical format of the bytes in the ring buffer.
pub open spec fn spec_default_audio_format() -> AudioFormat {
    AudioFormat { audio_format: AudioStreamFormat::F32, channel_count: 2, sample_rate: 48000 }
}

/// The canonical format of the bytes in the ring buffer: F32, two
/// channels, 48 kHz.
pub fn default_audio_format() -> (r: AudioFormat)
    ensures
        r == spec_default_audio_format(),
{
    AudioFormat { audio_format: AudioStreamFormat::F32, channel_count: 2, sample_rate: 48000 }
}

/// Replies the engine sends back to whoever asked.
#[derive(Debug, PartialEq)]
pub enum PlaybackReply {
    /// Playback of the requested content has started.
    PlaybackStarted,
    /// Playback of the requested content has ended.
    PlaybackEnded,
    /// The decoder thread has not generated enough data for the request.
    OutOfData,
    /// The request itself is invalid (for instance, too large a size).
    InvalidRequest,
    /// No data has been generated yet.
    NoData,
    /// The requested bytes.
    Data(Vec<u8>),
}

/// What the engine decided about one decoded block.
#[derive(Debug)]
pub enum DecodeStep {
    /// The block was in the internal format and was copied into the ring.
    /// When `finished` names an instance, that decoder reported
    /// `Finished`: destroy it and send `PlaybackEnded` on its slot's
    /// channel.
    Copied { bytes: usize, finished: Option<u64> },
    /// The block is in a foreign format: apply `reconfigure` to the
    /// plugin resampler if given, run the block through it, and hand the
    /// outcome to [`PlaybackInternal::apply_converted`].
    Convert { reconfigure: Option<ConvertConfig>, frame_count: u32 },
    /// The block was dropped: its byte size was unrepresentable, the
    /// handed buffer was shorter than announced, or the ring lacks room.
    /// `finished` as in `Copied`.
    Rejected { finished: Option<u64> },
}

/// What the engine decided about one `GetData` request.
#[derive(Debug)]
pub struct GetDataStep {
    /// New output-resampler configuration to apply first, present exactly
    /// when the requested format differs from the previous request's.
    pub reconfigure: Option<ConvertConfig>,
    /// The reply, or the conversion still to run.
    pub action: GetDataAction,
}

/// Second half of a [`GetDataStep`].
#[derive(Debug)]
pub enum GetDataAction {
    /// Send this reply; nothing else to do.
    Reply(PlaybackReply),
    /// The request wants a foreign format: ask the output resampler how
    /// many input frames `frames` output frames take, stage that many
    /// bytes with [`PlaybackInternal::take_convert_input`], convert them,
    /// and build the reply with [`finish_get_data`].
    Convert { frames: usize },
}

/// Outcome of staging resampler input from the ring.
#[derive(Debug)]
pub enum ConvertInputStep {
    /// The ring cannot serve the request; send this reply.
    Reply(PlaybackReply),
    /// The staged input bytes, taken out of the ring.
    Input(Vec<u8>),
}

/// The slot list after a decode step: a `Finished` status consumes the
/// active slot.
pub open spec fn spec_players_after(players: Seq<u64>, status: ReadStatus) -> Seq<u64> {
    if status is Finished && players.len() > 0 {
        players.skip(1)
    } else {
        players
    }
}

/// The decoder instance a decode step finished, if any: the active slot
/// when the status is `Finished`.
pub open spec fn spec_finished_of(players: Seq<u64>, status: ReadStatus) -> Option<u64> {
    if status is Finished && players.len() > 0 {
        Some(players[0])
    } else {
        None
    }
}

/// State of the playback engine.
pub struct PlaybackInternal {
    /// Queued decoder instances by handle; index 0 is currently decoding.
    pub players: Vec<u64>,
    /// Ring buffer for audio output.
    pub ring: RingBuffer,
    /// Format of the bytes in the ring buffer.
    pub internal_format: AudioFormat,
    /// Input format the plugin resampler is configured for.
    pub plugin_format: AudioFormat,
    /// Output format the output resampler was last configured for.
    pub last_request_format: AudioFormat,
    /// Status of a decoded block whose conversion is still outstanding.
    pub pending_status: Option<ReadStatus>,
}

impl PlaybackInternal {
    /// Well-formedness of the engine state.
    pub open spec fn inv(self) -> bool {
        self.ring.inv()
    }

    /// The backpressure gate: with half the ring pending, no more frames
    /// are decoded, which keeps about one second of lookahead and bounds
    /// the decoding work.
    pub open spec fn backpressure_blocked(self) -> bool {
        self.ring.used() >= self.ring.capacity() / 2
    }

    /// Plugin-resampler configuration needed before converting a block of
    /// format `f`, if it is not configured for `f` already.
    pub open spec fn spec_plugin_reconfig(self, f: AudioFormat) -> Option<ConvertConfig> {
        if self.plugin_format != f {
            Some(ConvertConfig { input: f, output: self.internal_format })
        } else {
            None
        }
    }

    /// Output-resampler configuration needed before serving a request of
    /// format `f`, if the previous request had another format.
    pub open spec fn spec_output_reconfig(self, f: AudioFormat) -> Option<ConvertConfig> {
        if self.last_request_format != f {
            Some(ConvertConfig { input: self.internal_format, output: f })
        } else {
            None
        }
    }

    /// Whether a block of `frame_count` internal-format frames, handed
    /// over in `data`, can go into the ring.
    pub open spec fn decode_block_fits(self, frame_count: nat, data: Seq<u8>) -> bool {
        let bs = spec_byte_size(self.internal_format, frame_count);
        &&& bs <= usize::MAX
        &&& bs <= data.len()
        &&& self.ring.used() + bs <= self.ring.capacity()
    }

    /// A fresh engine: empty slot list, a ring of two seconds of audio in
    /// the internal format, both resamplers taken as configured for the
    /// internal format.
    pub fn new() -> (r: PlaybackInternal)
        ensures
            r.inv(),
            r.players@ == Seq::<u64>::empty(),
            r.internal_format == spec_default_audio_format(),
            r.plugin_format == spec_default_audio_format(),
            r.last_request_format == spec_default_audio_format(),
            r.pending_status is None,
            r.ring.used() == 0,
            r.ring.capacity() == spec_byte_size(
                spec_default_audio_format(),
                (spec_default_audio_format().sample_rate * RING_BUFFER_SECONDS) as nat,
            ),
            r.ring.capacity() == 768000,
            r.ring.read_index.generation_spec() == 0,
            r.ring.write_index.generation_spec() == 0,
    {
        let internal_format = default_audio_format();
        let frames = (internal_format.sample_rate * RING_BUFFER_SECONDS) as usize;
        proof {
            assert(internal_format.sample_rate == 48000);
            assert(frames == 96000);
            assert(spec_bytes_per_sample(internal_format.audio_format) == 4);
            assert(spec_byte_size(internal_format, 96000) == 4 * 2 * 96000);
        }
        let ring_bytes = get_byte_size_format(internal_format, frames);
        let ring = RingBuffer::new(ring_bytes);
        proof {
            assert(0u64 / crate::index::GENERATION_STEP == 0);
        }
        PlaybackInternal {
            players: Vec::new(),
            ring,
            internal_format,
            plugin_format: internal_format,
            last_request_format: internal_format,
            pending_status: None,
        }
    }

    /// Append a decoder instance to the slot list. The handle is destroyed
    /// by the engine once, when the decoder reports `Finished`.
    pub fn queue_playback(&mut self, instance_id: u64)
        ensures
            final(self).players@ == old(self).players@.push(instance_id),
            final(self).ring == old(self).ring,
            final(self).internal_format == old(self).internal_format,
            final(self).plugin_format == old(self).plugin_format,
            final(self).last_request_format == old(self).last_request_format,
            final(self).pending_status == old(self).pending_status,
    {
        self.players.push(instance_id);
    }

    /// Decide whether the engine wants more frames decoded: yes exactly
    /// when a slot is active and less than half the ring is pending. The
    /// request asks for up to [`DECODE_FRAME_COUNT`] frames in the
    /// internal format.
    pub fn decode_request(&self) -> (r: Option<ReadInfo>)
        requires
            self.inv(),
        ensures
            r is Some <==> self.players@.len() > 0 && !self.backpressure_blocked(),
            r matches Some(req) ==> req == (ReadInfo {
                format: self.internal_format,
                frame_count: DECODE_FRAME_COUNT,
                status: ReadStatus::DecodingRequest,
                virtual_channel_count: 0,
            }),
    {
        if self.players.len() == 0 {
            return None;
        }
        let used = self.ring.used_bytes();
        let cap = self.ring.data.len();
        if used >= cap / 2 {
            return None;
        }
        Some(
            ReadInfo {
                format: self.internal_format,
                frame_count: DECODE_FRAME_COUNT,
                status: ReadStatus::DecodingRequest,
                virtual_channel_count: 0,
            },
        )
    }

    /// Copy a block of `frame_count` internal-format frames from `data`
    /// into the ring; `None` when the block does not fit (nothing is
    /// copied then).
    pub fn copy_buffer_to_ring(&mut self, frame_count: u32, data: &Vec<u8>) -> (r: Option<usize>)
        requires
            old(self).inv(),
            old(self).ring.write_index.generation_spec() < 0xffff_ffff,
        ensures
            final(self).inv(),
            final(self).players@ == old(self).players@,
            final(self).internal_format == old(self).internal_format,
            final(self).plugin_format == old(self).plugin_format,
            final(self).last_request_format == old(self).last_request_format,
            final(self).pending_status == old(self).pending_status,
            final(self).ring.capacity() == old(self).ring.capacity(),
            final(self).ring.read_index == old(self).ring.read_index,
            old(self).decode_block_fits(frame_count as nat, data@) ==> {
                let bs = spec_byte_size(old(self).internal_format, frame_count as nat);
                &&& r == Some(bs as usize)
                &&& final(self).ring.contents() == old(self).ring.contents() + data@.take(
                    bs as int,
                )
                &&& final(self).ring.write_ext() == old(self).ring.write_ext() + bs
                &&& final(self).ring.used() == old(self).ring.used() + bs
            },
            !old(self).decode_block_fits(frame_count as nat, data@) ==> {
                &&& r is None
                &&& final(self).ring.same_as(old(self).ring)
            },
    {
        let bs_opt = byte_size_checked(self.internal_format, frame_count as usize);
        match bs_opt {
            None => None,
            Some(bs) => {
                let used = self.ring.used_bytes();
                let cap = self.ring.data.len();
                if bs <= data.len() && bs <= cap - used {
                    self.ring.write(data, bs);
                    Some(bs)
                } else {
                    None
                }
            },
        }
    }

    /// Act on what the decoder produced for one request. A block in the
    /// internal format goes straight into the ring; a foreign block comes
    /// back as a `Convert` step. A `Finished` status retires the active
    /// slot.
    pub fn apply_decode(&mut self, info: ReadInfo, data: &Vec<u8>) -> (r: DecodeStep)
        requires
            old(self).inv(),
            old(self).players@.len() > 0,
            old(self).pending_status is None,
            old(self).ring.write_index.generation_spec() < 0xffff_ffff,
        ensures
            final(self).inv(),
            final(self).internal_format == old(self).internal_format,
            final(self).last_request_format == old(self).last_request_format,
            final(self).ring.capacity() == old(self).ring.capacity(),
            final(self).ring.read_index == old(self).ring.read_index,
            info.format != old(self).internal_format ==> {
                &&& r == (DecodeStep::Convert {
                    reconfigure: old(self).spec_plugin_reconfig(info.format),
                    frame_count: info.frame_count,
                })
                &&& final(self).plugin_format == info.format
                &&& final(self).pending_status == Some(info.status)
                &&& final(self).ring.same_as(old(self).ring)
                &&& final(self).players@ == old(self).players@
            },
            info.format == old(self).internal_format ==> {
                &&& final(self).plugin_format == old(self).plugin_format
                &&& final(self).pending_status is None
                &&& final(self).players@ == spec_players_after(old(self).players@, info.status)
                &&& (old(self).decode_block_fits(frame_count_nat(info), data@) ==> r == (
                DecodeStep::Copied {
                    bytes: spec_byte_size(
                        old(self).internal_format,
                        frame_count_nat(info),
                    ) as usize,
                    finished: spec_finished_of(old(self).players@, info.status),
                }) && final(self).ring.contents() == old(self).ring.contents() + data@.take(
                    spec_byte_size(old(self).internal_format, frame_count_nat(info)) as int,
                ))
                &&& (!old(self).decode_block_fits(frame_count_nat(info), data@) ==> r == (
                DecodeStep::Rejected {
                    finished: spec_finished_of(old(self).players@, info.status),
                }) && final(self).ring.same_as(old(self).ring))
            },
    {
        if !formats_equal(info.format, self.internal_format) {
            let reconfigure = if !formats_equal(self.plugin_format, info.format) {
                let cfg = ConvertConfig { input: info.format, output: self.internal_format };
                self.plugin_format = info.format;
                Some(cfg)
            } else {
                None
            };
            self.pending_status = Some(info.status);
            return DecodeStep::Convert { reconfigure, frame_count: info.frame_count };
        }
        let copied = self.copy_buffer_to_ring(info.frame_count, data);
        let finished = self.finish_active(info.status);
        match copied {
            Some(bytes) => DecodeStep::Copied { bytes, finished },
            None => DecodeStep::Rejected { finished },
        }
    }

    /// Act on the resampler's output for a block that needed conversion:
    /// copy it into the ring and settle the status remembered by
    /// [`PlaybackInternal::apply_decode`].
    pub fn apply_converted(&mut self, frame_count: u32, data: &Vec<u8>) -> (r: DecodeStep)
        requires
            old(self).inv(),
            old(self).players@.len() > 0,
            old(self).pending_status is Some,
            old(self).ring.write_index.generation_spec() < 0xffff_ffff,
        ensures
            final(self).inv(),
            final(self).internal_format == old(self).internal_format,
            final(self).plugin_format == old(self).plugin_format,
            final(self).last_request_format == old(self).last_request_format,
            final(self).pending_status is None,
            final(self).ring.capacity() == old(self).ring.capacity(),
            final(self).ring.read_index == old(self).ring.read_index,
            final(self).players@ == spec_players_after(
                old(self).players@,
                old(self).pending_status->0,
            ),
            old(self).decode_block_fits(frame_count as nat, data@) ==> r == (DecodeStep::Copied {
                bytes: spec_byte_size(old(self).internal_format, frame_count as nat) as usize,
                finished: spec_finished_of(old(self).players@, old(self).pending_status->0),
            }) && final(self).ring.contents() == old(self).ring.contents() + data@.take(
                spec_byte_size(old(self).internal_format, frame_count as nat) as int,
            ),
            !old(self).decode_block_fits(frame_count as nat, data@) ==> r == (DecodeStep::Rejected {
                finished: spec_finished_of(old(self).players@, old(self).pending_status->0),
            }) && final(self).ring.same_as(old(self).ring),
    {
        let status = match self.pending_status {
            Some(s) => s,
            None => ReadStatus::Error,
        };
        self.pending_status = None;
        let copied = self.copy_buffer_to_ring(frame_count, data);
        let finished = self.finish_active(status);
        match copied {
            Some(bytes) => DecodeStep::Copied { bytes, finished },
            None => DecodeStep::Rejected { finished },
        }
    }

    /// Serve one `GetData` request from the output callback: `frames`
    /// frames in `format`. A request in the internal format is answered
    /// from the ring at once; a foreign format comes back as a `Convert`
    /// action. Exactly one reply belongs to each request: either here, or
    /// from the staging and finishing steps of the conversion.
    pub fn get_data(&mut self, format: AudioFormat, frames: usize) -> (r: GetDataStep)
        requires
            old(self).inv(),
            old(self).ring.read_index.generation_spec() < 0xffff_ffff,
        ensures
            final(self).inv(),
            final(self).last_request_format == format,
            final(self).players@ == old(self).players@,
            final(self).internal_format == old(self).internal_format,
            final(self).plugin_format == old(self).plugin_format,
            final(self).pending_status == old(self).pending_status,
            final(self).ring.capacity() == old(self).ring.capacity(),
            final(self).ring.write_index == old(self).ring.write_index,
            r.reconfigure == old(self).spec_output_reconfig(format),
            old(self).ring.used() == 0 ==> r.action == GetDataAction::Reply(
                PlaybackReply::NoData,
            ) && final(self).ring.same_as(old(self).ring),
            old(self).ring.used() > 0 && spec_byte_size(format, frames as nat) > usize::MAX
                ==> r.action == GetDataAction::Reply(PlaybackReply::InvalidRequest) && final(self).ring.same_as(old(self).ring),
            old(self).ring.used() > 0 && spec_byte_size(format, frames as nat) <= usize::MAX
                && format != old(self).internal_format ==> r.action == (GetDataAction::Convert {
                frames,
            }) && final(self).ring.same_as(old(self).ring),
            old(self).ring.used() > 0 && spec_byte_size(format, frames as nat) <= usize::MAX
                && format == old(self).internal_format && old(self).ring.used() < spec_byte_size(
                format,
                frames as nat,
            ) ==> r.action == GetDataAction::Reply(PlaybackReply::NoData) && final(self).ring.same_as(old(self).ring),
            old(self).ring.used() > 0 && spec_byte_size(format, frames as nat) <= usize::MAX
                && format == old(self).internal_format && old(self).ring.used() >= spec_byte_size(
                format,
                frames as nat,
            ) ==> {
                let bs = spec_byte_size(format, frames as nat);
                &&& r.action matches GetDataAction::Reply(PlaybackReply::Data(d)) && d@ == old(self).ring.contents().take(bs as int)
                &&& final(self).ring.contents() == old(self).ring.contents().skip(bs as int)
                &&& final(self).ring.read_ext() == old(self).ring.read_ext() + bs
            },
    {
        let reconfigure = if !formats_equal(self.last_request_format, format) {
            Some(ConvertConfig { input: self.internal_format, output: format })
        } else {
            None
        };
        self.last_request_format = format;
        let used = self.ring.used_bytes();
        if used == 0 {
            return GetDataStep { reconfigure, action: GetDataAction::Reply(PlaybackReply::NoData) };
        }
        let bs = match byte_size_checked(format, frames) {
            None => {
                return GetDataStep {
                    reconfigure,
                    action: GetDataAction::Reply(PlaybackReply::InvalidRequest),
                };
            },
            Some(bs) => bs,
        };
        if !formats_equal(format, self.internal_format) {
            return GetDataStep { reconfigure, action: GetDataAction::Convert { frames } };
        }
        if used < bs {
            return GetDataStep { reconfigure, action: GetDataAction::Reply(PlaybackReply::NoData) };
        }
        let data = self.ring.read(bs);
        GetDataStep { reconfigure, action: GetDataAction::Reply(PlaybackReply::Data(data)) }
    }

    /// Stage the ring bytes a conversion needs: `required_in_frames`
    /// frames in the internal format, as the output resampler asked. The
    /// bytes leave the ring; wrapping past the ring end is handled here.
    pub fn take_convert_input(&mut self, required_in_frames: u32) -> (r: ConvertInputStep)
        requires
            old(self).inv(),
            old(self).ring.read_index.generation_spec() < 0xffff_ffff,
        ensures
            final(self).inv(),
            final(self).players@ == old(self).players@,
            final(self).internal_format == old(self).internal_format,
            final(self).plugin_format == old(self).plugin_format,
            final(self).last_request_format == old(self).last_request_format,
            final(self).pending_status == old(self).pending_status,
            final(self).ring.capacity() == old(self).ring.capacity(),
            final(self).ring.write_index == old(self).ring.write_index,
            old(self).ring.used() == 0 ==> r == ConvertInputStep::Reply(PlaybackReply::NoData)
                && final(self).ring.same_as(old(self).ring),
            old(self).ring.used() > 0 && spec_byte_size(
                old(self).internal_format,
                required_in_frames as nat,
            ) > usize::MAX ==> r == ConvertInputStep::Reply(PlaybackReply::InvalidRequest) && final(self).ring.same_as(old(self).ring),
            old(self).ring.used() > 0 && spec_byte_size(
                old(self).internal_format,
                required_in_frames as nat,
            ) <= usize::MAX && old(self).ring.used() < spec_byte_size(
                old(self).internal_format,
                required_in_frames as nat,
            ) ==> r == ConvertInputStep::Reply(PlaybackReply::NoData) && final(self).ring.same_as(old(self).ring),
            old(self).ring.used() > 0 && spec_byte_size(
                old(self).internal_format,
                required_in_frames as nat,
            ) <= usize::MAX && old(self).ring.used() >= spec_byte_size(
                old(self).internal_format,
                required_in_frames as nat,
            ) ==> {
                let need = spec_byte_size(old(self).internal_format, required_in_frames as nat);
                &&& r matches ConvertInputStep::Input(v) && v@ == old(self).ring.contents().take(
                    need as int,
                )
                &&& final(self).ring.contents() == old(self).ring.contents().skip(need as int)
                &&& final(self).ring.read_ext() == old(self).ring.read_ext() + need
            },
    {
        let used = self.ring.used_bytes();
        if used == 0 {
            return ConvertInputStep::Reply(PlaybackReply::NoData);
        }
        let need = match byte_size_checked(self.internal_format, required_in_frames as usize) {
            None => {
                return ConvertInputStep::Reply(PlaybackReply::InvalidRequest);
            },
            Some(need) => need,
        };
        if used < need {
            return ConvertInputStep::Reply(PlaybackReply::NoData);
        }
        let data = self.ring.read(need);
        ConvertInputStep::Input(data)
    }

    /// Retire the active slot when the status says the decoder finished.
    fn finish_active(&mut self, status: ReadStatus) -> (r: Option<u64>)
        ensures
            final(self).players@ == spec_players_after(old(self).players@, status),
            r == spec_finished_of(old(self).players@, status),
            final(self).ring == old(self).ring,
            final(self).internal_format == old(self).internal_format,
            final(self).plugin_format == old(self).plugin_format,
            final(self).last_request_format == old(self).last_request_format,
            final(self).pending_status == old(self).pending_status,
    {
        if self.players.len() > 0 && status_is_finished(status) {
            let id = self.players.remove(0);
            proof {
                assert(self.players@ =~= old(self).players@.skip(1));
            }
            Some(id)
        } else {
            None
        }
    }
}

/// Whether two formats are the same in every field.
pub fn formats_equal(a: AudioFormat, b: AudioFormat) -> (r: bool)
    ensures
        r <==> a == b,
{
    a == b
}

/// Whether a status reports the end of the content.
fn status_is_finished(status: ReadStatus) -> (r: bool)
    ensures
        r <==> status is Finished,
{
    match status {
        ReadStatus::Finished => true,
        _ => false,
    }
}

/// Build the reply for a converted `GetData` request: the converted bytes
/// must be exactly the byte size of the requested frames, else the
/// request is answered as invalid.
pub fn finish_get_data(format: AudioFormat, frames: usize, converted: Vec<u8>) -> (r: PlaybackReply)
    ensures
        spec_byte_size(format, frames as nat) <= usize::MAX && converted@.len() == spec_byte_size(
            format,
            frames as nat,
        ) ==> r == PlaybackReply::Data(converted),
        !(spec_byte_size(format, frames as nat) <= usize::MAX && converted@.len()
            == spec_byte_size(format, frames as nat)) ==> r == PlaybackReply::InvalidRequest,
{
    match byte_size_checked(format, frames) {
        Some(bs) => {
            if converted.len() == bs {
                PlaybackReply::Data(converted)
            } else {
                PlaybackReply::InvalidRequest
            }
        },
        None => PlaybackReply::InvalidRequest,
    }
}

/// Frame count of a read answer as a natural number.
pub open spec fn frame_count_nat(info: ReadInfo) -> nat {
    info.frame_count as nat
}

/// A data request in the internal format is lossless: decode a block into
/// an engine whose ring is empty, ask for exactly that block's bytes in
/// the internal format, and the reply carries the block bit for bit,
/// leaving the ring empty again. `mid` stands to `pre` as a fitting
/// [`PlaybackInternal::apply_decode`] promises, and `out` and `post`
/// stand to `mid` as a served [`PlaybackInternal::get_data`] promises.
pub proof fn lemma_internal_round_trip(
    pre: PlaybackInternal,
    mid: PlaybackInternal,
    post: PlaybackInternal,
    block: Seq<u8>,
    n: int,
    out: Seq<u8>,
)
    requires
        pre.inv(),
        pre.ring.used() == 0,
        0 <= n <= block.len(),
        mid.ring.contents() == pre.ring.contents() + block.take(n),
        mid.ring.used() == pre.ring.used() + n,
        out == mid.ring.contents().take(n),
        post.ring.contents() == mid.ring.contents().skip(n),
        post.ring.used() == mid.ring.used() - n,
    ensures
        out == block.take(n),
        post.ring.used() == 0,
{
    assert(pre.ring.contents() =~= Seq::<u8>::empty());
    assert(out =~= block.take(n));
}

/// A decoder instance never sits in two slots, and leaves its slot
/// exactly once. Queueing a fresh instance keeps the slots distinct, a
/// decode step keeps them distinct, and an instance the step reports
/// finished is no longer in any slot — so it is destroyed exactly once
/// and never leaked while queued.
pub proof fn lemma_instance_ownership(players: Seq<u64>, id: u64, status: ReadStatus)
    requires
        distinct_slots(players),
        !players.contains(id),
    ensures
        distinct_slots(players.push(id)),
        distinct_slots(spec_players_after(players, status)),
        spec_finished_of(players, status) matches Some(fin) ==> !spec_players_after(
            players,
            status,
        ).contains(fin),
{
    let pushed = players.push(id);
    assert forall|i: int, j: int| 0 <= i < j < pushed.len() implies pushed[i] != pushed[j] by {
        if j < players.len() {
        } else {
            assert(pushed[j] == id);
            assert(players.contains(players[i]));
        }
    }
    let after = spec_players_after(players, status);
    if status is Finished && players.len() > 0 {
        assert forall|i: int, j: int| 0 <= i < j < after.len() implies after[i] != after[j] by {
            assert(after[i] == players[i + 1]);
            assert(after[j] == players[j + 1]);
        }
        let fin = players[0];
        assert forall|i: int| 0 <= i < after.len() implies after[i] != fin by {
            assert(after[i] == players[i + 1]);
        }
        assert(!after.contains(fin));
    }
}

/// No two slots hold the same decoder instance.
pub open spec fn distinct_slots(players: Seq<u64>) -> bool {
    forall|i: int, j: int| 0 <= i < j < players.len() ==> players[i] != players[j]
}

} // verus!
