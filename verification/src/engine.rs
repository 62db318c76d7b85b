//! The decode-loop state machine.
//!
//! The application's decode thread owns the blocking work: opening and
//! probing the media file, decoding packets, pushing to the playback ring
//! and sleeping on backpressure. Each iteration it consults
//! [`decode_tick`] for the next step and hands every decoded packet to
//! [`DecodeEngine::on_packet`], which does the verified accounting:
//! position tracking and resampling to the device rate.

use vstd::prelude::*;
use crate::playback_state::AudioPlaybackState;
use crate::resample::{resample, resampled_at, SAMPLE_LIMIT};

verus! {

/// What the decode loop does next: exit and release its resources, spin
/// without decoding (paused), or decode the next packet.
pub enum LoopAction {
    Stop,
    Wait,
    DecodeNext,
}

/// The decode loop's one decision point, checked once per iteration:
/// `should_stop` always wins, so a stop request is honoured within a
/// single iteration; otherwise a paused transport idles and a playing one
/// decodes.
pub fn decode_tick(state: &AudioPlaybackState) -> (a: LoopAction)
    ensures
        state.should_stop ==> a is Stop,
        !state.should_stop && !state.is_playing ==> a is Wait,
        !state.should_stop && state.is_playing ==> a is DecodeNext,
{
    if state.should_stop {
        LoopAction::Stop
    } else if !state.is_playing {
        LoopAction::Wait
    } else {
        LoopAction::DecodeNext
    }
}

/// The playback position in whole seconds after `samples_played`
/// per-channel frames at `in_rate` frames per second, saturated to the
/// `u32` display range.
pub open spec fn position_seconds(samples_played: int, in_rate: int) -> int
    recommends
        in_rate >= 1,
{
    if samples_played / in_rate > u32::MAX {
        u32::MAX as int
    } else {
        samples_played / in_rate
    }
}

/// Per-thread working set of the decode loop: the source and device
/// rates, the channel count, and how many frames have been played so far.
pub struct DecodeEngine {
    pub in_rate: u32,
    pub out_rate: u32,
    pub channels: u32,
    pub samples_played: u64,
}

impl DecodeEngine {
    pub fn new(in_rate: u32, out_rate: u32, channels: u32) -> (r: DecodeEngine)
        requires
            in_rate >= 1,
            out_rate >= 1,
            channels >= 1,
        ensures
            r.in_rate == in_rate,
            r.out_rate == out_rate,
            r.channels == channels,
            r.samples_played == 0,
    {
        DecodeEngine { in_rate, out_rate, channels, samples_played: 0 }
    }

    /// Account one decoded packet of interleaved samples: advance the
    /// frame counter by the packet's per-channel frame count, report the
    /// new position in whole seconds, and resample the packet to the
    /// device rate.
    pub fn on_packet(&mut self, samples: &Vec<i64>) -> (out: (u32, Vec<i64>))
        requires
            old(self).in_rate >= 1,
            old(self).out_rate >= 1,
            old(self).channels >= 1,
            forall|j: int| 0 <= j < samples@.len()
                ==> -SAMPLE_LIMIT <= #[trigger] samples@[j] <= SAMPLE_LIMIT,
            samples@.len() * old(self).out_rate + old(self).in_rate <= u64::MAX,
            old(self).samples_played + samples@.len() <= u64::MAX,
        ensures
            final(self).in_rate == old(self).in_rate,
            final(self).out_rate == old(self).out_rate,
            final(self).channels == old(self).channels,
            final(self).samples_played == old(self).samples_played
                + samples@.len() as int / old(self).channels as int,
            out.0 == position_seconds(final(self).samples_played as int, old(self).in_rate as int),
            out.1@.len() * old(self).in_rate >= samples@.len() * old(self).out_rate,
            out.1@.len() > 0
                ==> (out.1@.len() - 1) * old(self).in_rate < samples@.len() * old(self).out_rate,
            samples@.len() == 0 ==> out.1@.len() == 0,
            forall|k: int| 0 <= k < out.1@.len() ==> (#[trigger] out.1@[k]) as int
                == resampled_at(samples@, old(self).in_rate as int, old(self).out_rate as int, k),
            forall|k: int| 0 <= k < out.1@.len()
                ==> -SAMPLE_LIMIT <= #[trigger] out.1@[k] <= SAMPLE_LIMIT,
    {
        let frames: u64 = (samples.len() as u64) / (self.channels as u64);
        proof {
            assert(frames <= samples@.len()) by {
                vstd::arithmetic::div_mod::lemma_div_nonincreasing(
                    samples@.len() as int, self.channels as int);
            }
        }
        self.samples_played = self.samples_played + frames;
        let pos64: u64 = self.samples_played / (self.in_rate as u64);
        let position: u32 = if pos64 > 0xFFFF_FFFFu64 {
            0xFFFF_FFFFu32
        } else {
            pos64 as u32
        };
        let resampled: Vec<i64> = resample(samples, self.in_rate, self.out_rate);
        (position, resampled)
    }
}

/// The total duration in whole seconds of `n_frames` frames under a
/// `tb_num / tb_den` time base, saturated to the `u32` display range.
pub open spec fn duration_of(n_frames: int, tb_num: int, tb_den: int) -> int
    recommends
        tb_den >= 1,
{
    if n_frames * tb_num / tb_den > u32::MAX {
        u32::MAX as int
    } else {
        n_frames * tb_num / tb_den
    }
}

/// Compute a track's duration in whole seconds from its frame count and
/// its codec time base.
pub fn duration_seconds(n_frames: u64, tb_num: u32, tb_den: u32) -> (d: u32)
    requires
        tb_den >= 1,
        n_frames * tb_num <= u64::MAX,
    ensures
        d == duration_of(n_frames as int, tb_num as int, tb_den as int),
{
    let total: u64 = n_frames * (tb_num as u64);
    let secs: u64 = total / (tb_den as u64);
    if secs > 0xFFFF_FFFFu64 {
        0xFFFF_FFFFu32
    } else {
        secs as u32
    }
}

} // verus!
