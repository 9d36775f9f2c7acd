//! What the player reads from a probed container: its tracks, and the
//! parameters of the one it plays.

use crate::timing::duration_millis;
use crate::timing::duration_ms;
use crate::timing::packet_position_ms;
use crate::timing::timestamp_millis;
use crate::timing::DEFAULT_SAMPLE_RATE;
use vstd::prelude::*;

verus! {

/// Channel count assumed for a track whose container does not state one.
pub const DEFAULT_CHANNELS: u16 = 2;

/// Frames of audio that the sample queue holds, whatever the channel count.
pub const RING_BUFFER_FRAMES: usize = 4096;

/// Length of one timestamp tick in seconds, as the fraction `numer / denom`.
#[derive(Clone, Copy, Debug, PartialEq, Eq)]
pub struct TimeBase {
    pub numer: u32,
    pub denom: u32,
}

impl TimeBase {
    /// Milliseconds that the timestamp `ts` stands for.
    pub open spec fn millis(self, ts: u64) -> u64 {
        timestamp_millis(ts, self.numer, self.denom)
    }

    /// Position in milliseconds of a packet stamped `ts`.
    pub fn position_ms(&self, ts: u64) -> (ms: u64)
        ensures
            ms == self.millis(ts),
    {
        packet_position_ms(ts, self.numer, self.denom)
    }
}

/// One track of a container, as far as the player looks at it.
#[derive(Clone, Copy, Debug, PartialEq, Eq)]
pub struct TrackInfo {
    /// Identifier that the packets of this track carry.
    pub id: u32,
    /// Whether the track has a codec other than the placeholder codec.
    pub decodable: bool,
    /// Frames per second.
    pub sample_rate: Option<u32>,
    /// Total number of frames.
    pub n_frames: Option<u64>,
    /// Number of channels.
    pub channels: Option<u16>,
    /// Length of one tick of the packets' timestamps.
    pub time_base: Option<TimeBase>,
}

impl TrackInfo {
    /// The sample rate, or the default where none is stated.
    pub open spec fn rate(self) -> u32 {
        match self.sample_rate {
            Some(r) => r,
            None => DEFAULT_SAMPLE_RATE,
        }
    }

    /// The channel count, or the default where none is stated.
    pub open spec fn channel_count(self) -> u16 {
        match self.channels {
            Some(c) => c,
            None => DEFAULT_CHANNELS,
        }
    }

    /// Length of the track in milliseconds: what its frame count and its
    /// sample rate give, and `0` unless the container states both. The
    /// default rate plays no part here.
    pub open spec fn length_millis(self) -> u64 {
        match self.sample_rate {
            Some(rate) => duration_millis(self.n_frames, rate),
            None => 0,
        }
    }

    /// What the playback pipeline needs to know of this track.
    pub open spec fn params(self) -> StreamParams {
        StreamParams {
            track_id: self.id,
            sample_rate: self.rate(),
            channels: self.channel_count(),
            time_base: self.time_base,
        }
    }

    pub fn sample_rate_or_default(&self) -> (rate: u32)
        ensures
            rate == self.rate(),
    {
        match self.sample_rate {
            Some(r) => r,
            None => DEFAULT_SAMPLE_RATE,
        }
    }

    pub fn channels_or_default(&self) -> (count: u16)
        ensures
            count == self.channel_count(),
    {
        match self.channels {
            Some(c) => c,
            None => DEFAULT_CHANNELS,
        }
    }

    pub fn duration_ms(&self) -> (ms: u64)
        ensures
            ms == self.length_millis(),
    {
        match self.sample_rate {
            Some(rate) => duration_ms(self.n_frames, rate),
            None => 0,
        }
    }

    pub fn stream_params(&self) -> (p: StreamParams)
        ensures
            p == self.params(),
    {
        StreamParams {
            track_id: self.id,
            sample_rate: self.sample_rate_or_default(),
            channels: self.channels_or_default(),
            time_base: self.time_base,
        }
    }
}

/// Parameters of the track being played, fixed when playback starts.
#[derive(Clone, Copy, Debug, PartialEq, Eq)]
pub struct StreamParams {
    pub track_id: u32,
    pub sample_rate: u32,
    pub channels: u16,
    pub time_base: Option<TimeBase>,
}

impl StreamParams {
    /// Samples that the queue holds: a fixed number of frames.
    pub open spec fn queue_len(self) -> nat {
        (RING_BUFFER_FRAMES * self.channels) as nat
    }

    pub fn ring_capacity(&self) -> (capacity: usize)
        ensures
            capacity == self.queue_len(),
    {
        assert(RING_BUFFER_FRAMES * self.channels <= 4096 * 0xffff) by (nonlinear_arith)
            requires
                RING_BUFFER_FRAMES == 4096,
                self.channels <= 0xffff,
        ;
        RING_BUFFER_FRAMES * (self.channels as usize)
    }
}

/// Whether `i` is the least index of a decodable track.
pub open spec fn is_first_decodable(tracks: Seq<TrackInfo>, i: int) -> bool {
    &&& 0 <= i < tracks.len()
    &&& tracks[i].decodable
    &&& forall|j: int| 0 <= j < i ==> !(#[trigger] tracks[j]).decodable
}

/// Picks the track to play: the first whose codec is not the placeholder.
pub fn select_track(tracks: &Vec<TrackInfo>) -> (found: Option<usize>)
    ensures
        match found {
            Some(i) => is_first_decodable(tracks@, i as int),
            None => forall|j: int| 0 <= j < tracks.len() ==> !(#[trigger] tracks[j]).decodable,
        },
{
    let mut i: usize = 0;
    while i < tracks.len()
        invariant
            i <= tracks.len(),
            forall|j: int| 0 <= j < i ==> !(#[trigger] tracks[j]).decodable,
        decreases tracks.len() - i,
    {
        if tracks[i].decodable {
            return Some(i);
        }
        i += 1;
    }
    None
}

} // verus!
