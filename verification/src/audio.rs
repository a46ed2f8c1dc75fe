//! What becomes of an audio packet: how much may wait to be played, and what is done when more
//! does. Packets hold five milliseconds of sound, and are decoded in order whether they are
//! played or not, since the decoder keeps state from each to the next.
use vstd::prelude::*;

verus! {

pub const SAMPLE_RATE: u32 = 48_000;

/// Samples of each channel in a packet.
pub const SAMPLES_PER_FRAME: usize = 240;

pub const MAX_CHANNELS: usize = 8;

/// The samples, over all channels, that there is room to decode a packet to.
pub const DECODE_BUFFER: usize = SAMPLES_PER_FRAME * MAX_CHANNELS;

/// The size of the device's own buffer, in samples of each channel.
pub const DEVICE_BUFFER_FRAMES: u16 = 512;

/// Above this much waiting sound, in milliseconds, a packet is dropped and the rest drains.
pub const SOFT_QUEUED_LAG_MS: u32 = 60;

/// Above this much, all of it is dropped at once, which can be heard.
pub const MAX_QUEUED_LAG_MS: u32 = 100;

/// What was done with a packet.
#[derive(Clone, Copy, Debug, PartialEq, Eq, Structural)]
pub enum AudioEvent {
    Queued,
    /// Nothing was waiting any more: there was a gap before this packet.
    Underrun,
    /// Dropped, so that what waits can drain.
    Dropped,
    /// All that waited was dropped.
    Resnapped,
}

/// What to do with a packet.
#[derive(Clone, Copy, Debug, PartialEq, Eq, Structural)]
pub struct AudioPlan {
    /// Drop all that waits first.
    pub clear: bool,
    /// Count the packets that went missing before this one.
    pub track_gap: bool,
    /// Fill in for each of those, and queue that.
    pub conceal: bool,
    /// Queue the decoded packet. It is decoded in any case.
    pub queue: bool,
    pub event: AudioEvent,
}

/// The bytes that a millisecond of sound takes: four for each sample.
pub open spec fn bytes_per_ms(channels: int) -> int {
    48 * channels * 4
}

/// What to do with a packet while `queued` bytes wait.
pub open spec fn plan_for(channels: int, queued: int) -> AudioPlan {
    if queued > bytes_per_ms(channels) * 100 {
        AudioPlan {
            clear: true,
            track_gap: false,
            conceal: false,
            queue: true,
            event: AudioEvent::Resnapped,
        }
    } else if queued > bytes_per_ms(channels) * 60 {
        AudioPlan {
            clear: false,
            track_gap: true,
            conceal: false,
            queue: false,
            event: AudioEvent::Dropped,
        }
    } else {
        AudioPlan {
            clear: false,
            track_gap: true,
            conceal: true,
            queue: true,
            event: if queued == 0 {
                AudioEvent::Underrun
            } else {
                AudioEvent::Queued
            },
        }
    }
}

/// The bytes that wait once a packet was dealt with as planned, where `missing` went before
/// it and each takes `frame` bytes.
pub open spec fn queued_after(channels: int, queued: int, missing: int, frame: int) -> int {
    let plan = plan_for(channels, queued);
    (if plan.clear {
        0
    } else {
        queued
    }) + (if plan.conceal {
        missing * frame
    } else {
        0
    }) + (if plan.queue {
        frame
    } else {
        0
    })
}

/// The playback of a session's sound.
#[derive(Clone, Copy, Debug, PartialEq, Eq, Structural)]
pub struct AudioPlayer {
    /// How many channels the host resolved to.
    pub channels: u8,
}

impl AudioPlayer {
    /// Playback of this many channels.
    pub fn new(channels: u8) -> (r: Self)
        ensures
            r.channels == channels,
    {
        AudioPlayer { channels }
    }

    /// Decides on a packet that comes while `queued` bytes wait.
    pub fn play(&self, queued: u32) -> (plan: AudioPlan)
        ensures
            plan == plan_for(self.channels as int, queued as int),
    {
        let per_ms: u32 = SAMPLE_RATE / 1000 * self.channels as u32 * 4;
        let underrun = queued == 0;
        if queued > per_ms * MAX_QUEUED_LAG_MS {
            return AudioPlan {
                clear: true,
                track_gap: false,
                conceal: false,
                queue: true,
                event: AudioEvent::Resnapped,
            };
        }
        if queued > per_ms * SOFT_QUEUED_LAG_MS {
            return AudioPlan {
                clear: false,
                track_gap: true,
                conceal: false,
                queue: false,
                event: AudioEvent::Dropped,
            };
        }
        AudioPlan {
            clear: false,
            track_gap: true,
            conceal: true,
            queue: true,
            event: if underrun {
                AudioEvent::Underrun
            } else {
                AudioEvent::Queued
            },
        }
    }

    /// How many samples a decoded packet holds, over all channels, where the decoder made
    /// `per_channel` of each. They fit in the buffer that packets are decoded to.
    pub fn decoded_samples(&self, per_channel: usize) -> (n: usize)
        requires
            per_channel * self.channels <= DECODE_BUFFER,
        ensures
            n == per_channel * self.channels,
    {
        per_channel * self.channels as usize
    }
}

/// What waits is bounded, however the packets come: beyond the soft limit it only shrinks, so
/// that a packet and those filled in before it are all that can stand above it.
pub proof fn law_lag_is_bounded(channels: int, queued: int, missing: int, frame: int)
    requires
        channels > 0,
        queued >= 0,
        missing >= 0,
        frame >= 0,
    ensures
        queued > bytes_per_ms(channels) * 100 ==> queued_after(channels, queued, missing, frame)
            == frame,
        bytes_per_ms(channels) * 60 < queued <= bytes_per_ms(channels) * 100 ==> queued_after(
            channels,
            queued,
            missing,
            frame,
        ) == queued,
        queued <= bytes_per_ms(channels) * 60 ==> queued_after(channels, queued, missing, frame)
            <= bytes_per_ms(channels) * 60 + (missing + 1) * frame,
{
    assert((missing + 1) * frame == missing * frame + frame) by (nonlinear_arith);
}

/// A gap that was heard is told apart from a queue that was too full: the one is reported
/// exactly where nothing waited.
pub proof fn law_underrun_means_empty(channels: int, queued: int)
    requires
        channels >= 0,
        queued >= 0,
    ensures
        plan_for(channels, queued).event is Underrun <==> queued == 0,
{
}

/// A packet is played unless too much waits: above sixty milliseconds of sound it is dropped, and
/// above a hundred all that waits is. Lost packets are filled in only where sound is played on.
pub proof fn law_packet_is_played_unless_late(channels: int, queued: int)
    requires
        channels > 0,
        queued >= 0,
    ensures
        ({
            let plan = plan_for(channels, queued);
            let second = 48000 * channels * 4;
            let soft = 1000 * queued > 60 * second;
            let hard = 1000 * queued > 100 * second;
            &&& plan.clear <==> hard
            &&& plan.queue <==> hard || !soft
            &&& plan.conceal <==> !soft
            &&& plan.track_gap <==> !hard
            &&& plan.event is Resnapped <==> hard
            &&& plan.event is Dropped <==> soft && !hard
            &&& plan.event is Underrun <==> queued == 0
            &&& plan.event is Queued <==> queued > 0 && !soft
        }),
{
}

} // verus!
