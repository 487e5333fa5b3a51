//! The realtime side of the output driver.
//!
//! The output plugin's realtime thread asks the playback engine for data
//! and must stay policy-free: it copies the bytes it was given and
//! reports how many frames it filled. The one decision it takes — data
//! means the full frame count, anything else means silence — is here.

use crate::playback::PlaybackReply;
use vstd::prelude::*;

verus! {

/// Frames the realtime callback reports for one engine reply: the
/// requested count when data arrived, zero — silence — for every other
/// reply or a broken channel.
pub fn output_callback_frames(reply: &PlaybackReply, frames: u32) -> (r: u32)
    ensures
        reply matches PlaybackReply::Data(_) ==> r == frames,
        !(reply matches PlaybackReply::Data(_)) ==> r == 0,
{
    match reply {
        PlaybackReply::Data(_) => frames,
        _ => 0,
    }
}

} // verus!
