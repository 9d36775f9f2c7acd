//! The player handle: what a caller holds to load a track and steer its
//! playback. It owns no thread and no device, only the shared cells and what
//! it alone knows.

use crate::output::OutputFault;
use crate::ring::consumer_limit;
use crate::ring::popped_samples;
use crate::ring::producer_limit;
use crate::ring::pushed_samples;
use crate::ring::sample_ring;
use crate::ring::SampleConsumer;
use crate::ring::SampleProducer;
use crate::track::is_first_decodable;
use crate::track::select_track;
use crate::track::StreamParams;
use crate::track::RING_BUFFER_FRAMES;
use crate::track::TrackInfo;
use crate::transport::CellWrite;
use crate::transport::HandleCommand;
use crate::transport::SharedState;
use crate::transport::Transport;
use std::sync::Arc;
use vstd::prelude::*;

verus! {

/// Why a track could not be loaded or its playback not started.
#[derive(Clone, Copy, Debug, PartialEq, Eq)]
pub enum PlayerError {
    /// The file could not be opened or read.
    IoFailure,
    /// The container could not be probed, or describes no playable stream.
    UnsupportedFormat,
    /// No track has a codec other than the placeholder.
    NoAudioTrack,
    /// There is no output device, or none of its configurations can be had.
    DeviceUnavailable,
    /// The device refused to set up or start the stream.
    StreamCreationFailure,
}

impl PlayerError {
    /// The words shown to the user for this error.
    pub open spec fn text(self) -> Seq<char> {
        match self {
            PlayerError::IoFailure => "無法開啟檔案"@,
            PlayerError::UnsupportedFormat => "無法解析音訊格式"@,
            PlayerError::NoAudioTrack => "找不到音訊軌道"@,
            PlayerError::DeviceUnavailable => "找不到音訊輸出裝置"@,
            PlayerError::StreamCreationFailure => "無法建立音訊串流"@,
        }
    }

    pub fn message(&self) -> (text: &'static str)
        ensures
            text@ == self.text(),
    {
        match self {
            PlayerError::IoFailure => "無法開啟檔案",
            PlayerError::UnsupportedFormat => "無法解析音訊格式",
            PlayerError::NoAudioTrack => "找不到音訊軌道",
            PlayerError::DeviceUnavailable => "找不到音訊輸出裝置",
            PlayerError::StreamCreationFailure => "無法建立音訊串流",
        }
    }
}

/// What a caller sees of the playback at one instant. Times are in
/// milliseconds.
#[derive(Clone, Copy, Debug, PartialEq, Eq)]
pub struct PlaybackState {
    pub position_ms: u64,
    pub duration_ms: u64,
    pub is_playing: bool,
}

impl PlaybackState {
    /// What is reported of the cells `t`.
    pub open spec fn of(t: Transport) -> PlaybackState {
        PlaybackState { position_ms: t.position_ms, duration_ms: t.duration_ms, is_playing: t.playing() }
    }

    /// What is reported while no track is loaded.
    pub fn idle() -> (state: PlaybackState)
        ensures
            state == PlaybackState::of(Transport::idle()),
    {
        PlaybackState { position_ms: 0, duration_ms: 0, is_playing: false }
    }

    /// What is reported of a reading `t` of the cells.
    pub fn report(t: Transport) -> (state: PlaybackState)
        ensures
            state == PlaybackState::of(t),
    {
        PlaybackState { position_ms: t.position_ms, duration_ms: t.duration_ms, is_playing: t.is_playing() }
    }
}

/// What a request to play amounts to.
#[derive(Clone, Copy, Debug, PartialEq, Eq)]
pub enum PlayRequest {
    /// Nothing has played yet: start the pipeline.
    StartPipeline,
    /// Resume what was paused.
    Resume,
}

/// A request to play starts the pipeline of a handle that has none running
/// and resumes a running one, wherever the position stands.
pub open spec fn play_request_for(started: bool) -> PlayRequest {
    if started {
        PlayRequest::Resume
    } else {
        PlayRequest::StartPipeline
    }
}

/// Decides what a request to play amounts to, given whether the pipeline
/// is running.
pub fn play_request(started: bool) -> (request: PlayRequest)
    ensures
        request == play_request_for(started),
{
    if started {
        PlayRequest::Resume
    } else {
        PlayRequest::StartPipeline
    }
}

/// The error that a failed setup of the sound output is reported as: a
/// missing device or configuration makes the device unavailable, a refusal
/// of the device is a failure to create the stream.
pub open spec fn fault_error(fault: OutputFault) -> PlayerError {
    match fault {
        OutputFault::NoDevice => PlayerError::DeviceUnavailable,
        OutputFault::NoConfiguration => PlayerError::DeviceUnavailable,
        OutputFault::StreamRejected => PlayerError::StreamCreationFailure,
        OutputFault::StartRejected => PlayerError::StreamCreationFailure,
    }
}

pub fn error_of_fault(fault: OutputFault) -> (e: PlayerError)
    ensures
        e == fault_error(fault),
{
    match fault {
        OutputFault::NoDevice => PlayerError::DeviceUnavailable,
        OutputFault::NoConfiguration => PlayerError::DeviceUnavailable,
        OutputFault::StreamRejected => PlayerError::StreamCreationFailure,
        OutputFault::StartRejected => PlayerError::StreamCreationFailure,
    }
}

/// What the two loops of a playback need: the track's parameters and the
/// two halves of a fresh sample queue.
pub struct Pipeline {
    pub params: StreamParams,
    pub producer: SampleProducer,
    pub consumer: SampleConsumer,
}

/// The record that the cells of a freshly loaded track hold.
pub open spec fn loaded(duration_ms: u64) -> Transport {
    Transport::idle().written(CellWrite::Duration(duration_ms))
}

/// Handle of one loaded track.
pub struct AudioPlayer {
    file_path: String,
    shared_state: Arc<SharedState>,
    playback_started: bool,
    duration_ms: u64,
}

impl AudioPlayer {
    /// Path of the loaded file.
    pub closed spec fn path(&self) -> Seq<char> {
        self.file_path@
    }

    /// Whether the pipeline of this handle has been started and not stopped
    /// since.
    pub closed spec fn started(&self) -> bool {
        self.playback_started
    }

    /// Duration of the track in milliseconds, as fixed at load time.
    pub closed spec fn length_ms(&self) -> u64 {
        self.duration_ms
    }

    /// The cells that this handle writes to and reads from.
    pub closed spec fn cells(&self) -> Arc<SharedState> {
        self.shared_state
    }

    /// Makes the handle of a file whose container has been probed and found
    /// to hold `tracks`. The track played is the first decodable one; its
    /// frame count and sample rate give the duration. Nothing is started.
    pub fn load(path: &str, tracks: &Vec<TrackInfo>) -> (loaded: Result<AudioPlayer, PlayerError>)
        ensures
            match loaded {
                Ok(player) => {
                    &&& player.path() == path@
                    &&& !player.started()
                    &&& player.cells().initial() == self::loaded(player.length_ms())
                    &&& exists|i: int|
                        is_first_decodable(tracks@, i) && player.length_ms() == tracks[i].length_millis()
                },
                Err(e) => {
                    &&& e == PlayerError::NoAudioTrack
                    &&& forall|j: int| 0 <= j < tracks.len() ==> !(#[trigger] tracks[j]).decodable
                },
            },
    {
        match select_track(tracks) {
            None => Err(PlayerError::NoAudioTrack),
            Some(i) => {
                let duration_ms = tracks[i].duration_ms();
                let cells = Transport::new().write(CellWrite::Duration(duration_ms));
                assert(is_first_decodable(tracks@, i as int));
                Ok(
                    AudioPlayer {
                        file_path: path.to_owned(),
                        shared_state: Arc::new(SharedState::holding(cells)),
                        playback_started: false,
                        duration_ms,
                    },
                )
            },
        }
    }

    /// First half of starting: unless the pipeline is running, picks the
    /// track among `tracks`, which a fresh probe of the file found, and
    /// makes the sample queue, of 4096 frames of the track's channels. On
    /// `Ok(Some(..))` the caller sets up the sound output and reports how
    /// that went to [`AudioPlayer::confirm_start`]; until then the handle is
    /// not started. On `Ok(None)` the pipeline was running. Nothing of the
    /// handle changes either way.
    pub fn start_playback(&mut self, tracks: &Vec<TrackInfo>) -> (start: Result<Option<Pipeline>, PlayerError>)
        ensures
            final(self).path() == old(self).path(),
            final(self).length_ms() == old(self).length_ms(),
            final(self).cells() == old(self).cells(),
            final(self).started() == old(self).started(),
            start matches Ok(None) <==> old(self).started(),
            start matches Ok(Some(_)) <==> !old(self).started() && exists|i: int|
                is_first_decodable(tracks@, i) && tracks[i].channel_count() > 0,
            match start {
                Ok(None) => true,
                Ok(Some(pipeline)) => {
                    &&& exists|i: int| is_first_decodable(tracks@, i) && pipeline.params == tracks[i].params()
                    &&& pushed_samples(pipeline.producer) == Seq::<u32>::empty()
                    &&& popped_samples(pipeline.consumer) == Seq::<u32>::empty()
                    &&& producer_limit(pipeline.producer) == RING_BUFFER_FRAMES * pipeline.params.channels
                    &&& consumer_limit(pipeline.consumer) == RING_BUFFER_FRAMES * pipeline.params.channels
                },
                Err(e) => {
                    &&& e == PlayerError::NoAudioTrack || e == PlayerError::UnsupportedFormat
                    &&& e == PlayerError::NoAudioTrack <==> forall|j: int|
                        0 <= j < tracks.len() ==> !(#[trigger] tracks[j]).decodable
                    &&& e == PlayerError::UnsupportedFormat <==> exists|i: int|
                        is_first_decodable(tracks@, i) && tracks[i].channel_count() == 0
                },
            },
    {
        if self.playback_started {
            return Ok(None);
        }
        match select_track(tracks) {
            None => Err(PlayerError::NoAudioTrack),
            Some(i) => {
                let params = tracks[i].stream_params();
                assert(is_first_decodable(tracks@, i as int));
                assert(forall|k: int| is_first_decodable(tracks@, k) ==> k == i);
                match sample_ring(params.ring_capacity()) {
                    None => {
                        assert(params.channels == 0) by (nonlinear_arith)
                            requires
                                RING_BUFFER_FRAMES * params.channels == 0,
                                RING_BUFFER_FRAMES == 4096,
                        ;
                        Err(PlayerError::UnsupportedFormat)
                    },
                    Some((producer, consumer)) => {
                        assert(params.channels > 0) by (nonlinear_arith)
                            requires
                                RING_BUFFER_FRAMES * params.channels > 0,
                        ;
                        Ok(Some(Pipeline { params, producer, consumer }))
                    },
                }
            },
        }
    }

    /// Second half of starting: told how the setup of the sound output
    /// went. If it went well the handle is started and playback runs. If
    /// not, the handle stays as it was, not started and paused, and the
    /// caller gets the error at once.
    pub fn confirm_start(&mut self, setup: Result<(), OutputFault>) -> (confirmed: Result<(), PlayerError>)
        ensures
            final(self).path() == old(self).path(),
            final(self).length_ms() == old(self).length_ms(),
            final(self).cells() == old(self).cells(),
            match setup {
                Ok(_) => confirmed is Ok && final(self).started(),
                Err(fault) => {
                    &&& confirmed is Err
                    &&& confirmed->Err_0 == fault_error(fault)
                    &&& final(self).started() == old(self).started()
                },
            },
    {
        match setup {
            Ok(_) => {
                self.shared_state.send(HandleCommand::Play);
                self.playback_started = true;
                Ok(())
            },
            Err(fault) => {
                if !self.playback_started {
                    self.shared_state.send(HandleCommand::Pause);
                }
                Err(error_of_fault(fault))
            },
        }
    }

    /// What a request to play amounts to for this handle.
    pub fn play_request(&self) -> (request: PlayRequest)
        ensures
            request == play_request_for(self.started()),
    {
        play_request(self.playback_started)
    }

    /// Resumes playback.
    pub fn play(&self) {
        self.shared_state.send(HandleCommand::Play);
    }

    /// Pauses playback: from the next callback on the output is silence.
    pub fn pause(&self) {
        self.shared_state.send(HandleCommand::Pause);
    }

    /// Asks the decoder to move to `ms` milliseconds from the start and
    /// returns at once.
    pub fn seek(&self, ms: u64) {
        self.shared_state.send(HandleCommand::Seek(ms));
    }

    /// Playback position in milliseconds, as the decoder last published it.
    pub fn get_position(&self) -> (ms: u64) {
        self.shared_state.position_ms()
    }

    /// Duration of the track in milliseconds, `0` when unknown.
    pub fn get_duration(&self) -> (ms: u64)
        ensures
            ms == self.length_ms(),
    {
        self.duration_ms
    }

    /// Whether sound is being produced.
    pub fn is_playing(&self) -> (playing: bool) {
        !self.shared_state.paused()
    }

    /// Position, duration and whether sound is being produced, read without
    /// waiting for anyone.
    pub fn get_playback_state(&self) -> (state: PlaybackState)
        ensures
            state.duration_ms == self.length_ms(),
    {
        PlaybackState {
            position_ms: self.get_position(),
            duration_ms: self.duration_ms,
            is_playing: self.is_playing(),
        }
    }

    /// Whether the pipeline is running.
    pub fn is_started(&self) -> (yes: bool)
        ensures
            yes == self.started(),
    {
        self.playback_started
    }

    /// Path of the loaded file.
    pub fn file_path(&self) -> (path: &str)
        ensures
            path@ == self.path(),
    {
        self.file_path.as_str()
    }

    /// The cells, for a loop that is to share them with the handle.
    pub fn shared(&self) -> (cells: Arc<SharedState>)
        ensures
            cells == self.cells(),
    {
        self.shared_state.clone()
    }

    /// Asks both loops to end and pauses. Returns whether a pipeline was
    /// running, whose threads the caller then has to wait for. A handle that
    /// is already stopped can be stopped again.
    pub fn stop(&mut self) -> (was_running: bool)
        ensures
            was_running == old(self).started(),
            !final(self).started(),
            final(self).path() == old(self).path(),
            final(self).length_ms() == old(self).length_ms(),
            final(self).cells() == old(self).cells(),
    {
        self.shared_state.send(HandleCommand::Stop);
        let was_running = self.playback_started;
        self.playback_started = false;
        was_running
    }
}

} // verus!
