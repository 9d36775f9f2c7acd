//! The cells through which the player handle, the decoder and the output
//! callback talk to each other, and the plain record that says what they
//! hold. Each cell is updated on its own; nobody waits for a lock.

use std::sync::atomic::AtomicBool;
use std::sync::atomic::AtomicU64;
use std::sync::atomic::Ordering;
use vstd::prelude::*;

verus! {

/// Value of the seek cell while no seek is pending.
pub const NO_SEEK: u64 = u64::MAX;

/// The farthest target that a seek can ask for: the one value below the
/// reserved one.
pub const FARTHEST_SEEK: u64 = u64::MAX - 1;

/// What the five cells hold at one instant.
#[derive(Clone, Copy, Debug, PartialEq, Eq)]
pub struct Transport {
    /// The output plays silence and the decoder idles while this is set.
    pub paused: bool,
    /// Both loops end once this is set; it is never cleared.
    pub stopping: bool,
    /// Target of a seek that the decoder has not taken yet.
    pub pending_seek: Option<u64>,
    /// Last known playback position in milliseconds.
    pub position_ms: u64,
    /// Total duration in milliseconds, `0` when unknown.
    pub duration_ms: u64,
}

/// One store into one cell.
#[derive(Clone, Copy, Debug, PartialEq, Eq)]
pub enum CellWrite {
    /// Set or clear the pause flag.
    Paused(bool),
    /// Raise the stop flag.
    Stop,
    /// Store a raw value into the seek cell; [`NO_SEEK`] clears it.
    Seek(u64),
    /// Store the playback position.
    Position(u64),
    /// Store the total duration.
    Duration(u64),
}

/// What the player handle can ask of the pipeline.
#[derive(Clone, Copy, Debug, PartialEq, Eq)]
pub enum HandleCommand {
    /// Produce sound.
    Play,
    /// Produce silence and hold the position.
    Pause,
    /// Move to this many milliseconds from the start, or as far as a seek
    /// can go. A later seek replaces one that the decoder has not taken
    /// yet.
    Seek(u64),
    /// End both loops.
    Stop,
}

/// The target that a seek to `ms` leaves pending. Every target is
/// accepted; the one value that the seek cell reserves for "no seek" is
/// taken as the farthest target, which lies past the end of any track.
pub open spec fn seek_target_of(ms: u64) -> u64 {
    if ms == NO_SEEK {
        FARTHEST_SEEK
    } else {
        ms
    }
}

pub fn seek_request(ms: u64) -> (target: u64)
    ensures
        target == seek_target_of(ms),
        target != NO_SEEK,
{
    if ms == NO_SEEK {
        FARTHEST_SEEK
    } else {
        ms
    }
}

impl HandleCommand {
    /// The stores that carry out the command, in order.
    pub open spec fn cell_writes(self) -> Seq<CellWrite> {
        match self {
            HandleCommand::Play => seq![CellWrite::Paused(false)],
            HandleCommand::Pause => seq![CellWrite::Paused(true)],
            HandleCommand::Seek(ms) => seq![CellWrite::Seek(seek_target_of(ms))],
            HandleCommand::Stop => seq![CellWrite::Stop, CellWrite::Paused(true)],
        }
    }

    pub fn writes(self) -> (ws: Vec<CellWrite>)
        ensures
            ws@ == self.cell_writes(),
    {
        let mut ws: Vec<CellWrite> = Vec::new();
        match self {
            HandleCommand::Play => {
                ws.push(CellWrite::Paused(false));
            },
            HandleCommand::Pause => {
                ws.push(CellWrite::Paused(true));
            },
            HandleCommand::Seek(ms) => {
                ws.push(CellWrite::Seek(seek_request(ms)));
            },
            HandleCommand::Stop => {
                ws.push(CellWrite::Stop);
                ws.push(CellWrite::Paused(true));
            },
        }
        assert(ws@ =~= self.cell_writes());
        ws
    }
}

/// The seek that a raw value of the seek cell stands for.
pub open spec fn seek_of_raw(raw: u64) -> Option<u64> {
    if raw == NO_SEEK {
        None
    } else {
        Some(raw)
    }
}

/// The raw value of the seek cell that stands for `pending`.
pub open spec fn raw_of_seek(pending: Option<u64>) -> u64 {
    match pending {
        Some(ms) => ms,
        None => NO_SEEK,
    }
}

/// Encodes a pending seek, or none, as a raw value of the seek cell.
pub fn raw_seek(pending: Option<u64>) -> (raw: u64)
    ensures
        raw == raw_of_seek(pending),
        pending != Some(NO_SEEK) ==> seek_of_raw(raw) == pending,
{
    match pending {
        Some(ms) => ms,
        None => NO_SEEK,
    }
}

/// Decodes a raw value of the seek cell.
pub fn pending_seek(raw: u64) -> (pending: Option<u64>)
    ensures
        pending == seek_of_raw(raw),
{
    if raw == NO_SEEK {
        None
    } else {
        Some(raw)
    }
}

impl Transport {
    /// The cells of a player that has nothing loaded: paused, not stopping,
    /// no seek pending, position and duration zero.
    pub open spec fn idle() -> Transport {
        Transport { paused: true, stopping: false, pending_seek: None, position_ms: 0, duration_ms: 0 }
    }

    /// The record after the store `w`.
    pub open spec fn written(self, w: CellWrite) -> Transport {
        match w {
            CellWrite::Paused(flag) => Transport { paused: flag, ..self },
            CellWrite::Stop => Transport { stopping: true, ..self },
            CellWrite::Seek(raw) => Transport { pending_seek: seek_of_raw(raw), ..self },
            CellWrite::Position(ms) => Transport { position_ms: ms, ..self },
            CellWrite::Duration(ms) => Transport { duration_ms: ms, ..self },
        }
    }

    /// The record after the stores `ws`, first to last.
    pub open spec fn written_all(self, ws: Seq<CellWrite>) -> Transport
        decreases ws.len(),
    {
        if ws.len() == 0 {
            self
        } else {
            self.written(ws[0]).written_all(ws.skip(1))
        }
    }

    /// The record as five cells can hold it: a pending seek to the reserved
    /// value is no seek, everything else is kept.
    pub open spec fn stored(self) -> Transport {
        Transport { pending_seek: seek_of_raw(raw_of_seek(self.pending_seek)), ..self }
    }

    /// The record after the handle's command `cmd`.
    pub open spec fn commanded(self, cmd: HandleCommand) -> Transport {
        self.written_all(cmd.cell_writes())
    }

    /// The record whose seek cell was emptied.
    pub open spec fn seek_taken(self) -> Transport {
        Transport { pending_seek: None, ..self }
    }

    /// Whether sound is being produced.
    pub open spec fn playing(self) -> bool {
        !self.paused
    }

    pub fn new() -> (t: Transport)
        ensures
            t == Transport::idle(),
    {
        Transport { paused: true, stopping: false, pending_seek: None, position_ms: 0, duration_ms: 0 }
    }

    /// Applies one store to the record.
    pub fn write(self, w: CellWrite) -> (t: Transport)
        ensures
            t == self.written(w),
    {
        match w {
            CellWrite::Paused(flag) => Transport { paused: flag, ..self },
            CellWrite::Stop => Transport { stopping: true, ..self },
            CellWrite::Seek(raw) => Transport { pending_seek: pending_seek(raw), ..self },
            CellWrite::Position(ms) => Transport { position_ms: ms, ..self },
            CellWrite::Duration(ms) => Transport { duration_ms: ms, ..self },
        }
    }

    /// Applies the stores `ws` to the record, first to last.
    pub fn write_all(self, ws: &Vec<CellWrite>) -> (t: Transport)
        ensures
            t == self.written_all(ws@),
    {
        let mut t = self;
        let mut i: usize = 0;
        assert(ws@.skip(0) =~= ws@);
        while i < ws.len()
            invariant
                i <= ws.len(),
                t.written_all(ws@.skip(i as int)) == self.written_all(ws@),
            decreases ws.len() - i,
        {
            assert(ws@.skip(i as int).skip(1) =~= ws@.skip(i + 1));
            t = t.write(ws[i]);
            i += 1;
        }
        t
    }

    /// Applies a command of the handle to the record.
    pub fn command(self, cmd: HandleCommand) -> (t: Transport)
        ensures
            t == self.commanded(cmd),
    {
        let ws = cmd.writes();
        self.write_all(&ws)
    }

    /// Empties the seek cell of the record and hands out what it held.
    pub fn take_seek(self) -> (taken: (Transport, Option<u64>))
        ensures
            taken.0 == self.seek_taken(),
            taken.1 == self.pending_seek,
    {
        (Transport { pending_seek: None, ..self }, self.pending_seek)
    }

    pub fn is_playing(self) -> (playing: bool)
        ensures
            playing == self.playing(),
    {
        !self.paused
    }
}

/// Shared transport state. All fields are atomic cells, so the handle and
/// both loops can hold it at once.
pub struct SharedState {
    /// Set while playback is paused.
    pub is_paused: AtomicBool,
    /// Set once to ask both loops to end.
    pub should_stop: AtomicBool,
    /// Pending seek target in milliseconds, or [`NO_SEEK`].
    pub seek_position_ms: AtomicU64,
    /// Last known playback position in milliseconds.
    pub current_position_ms: AtomicU64,
    /// Total duration in milliseconds, `0` when unknown.
    pub duration_ms: AtomicU64,
}

/// The value that a flag cell held when it was made. What it holds later
/// is up to whoever stores into it; what it was made with is not.
pub uninterp spec fn flag_made_with(cell: AtomicBool) -> bool;

/// The value that a number cell held when it was made.
pub uninterp spec fn number_made_with(cell: AtomicU64) -> u64;

/// `AtomicBool::from`: a new cell that holds `value`.
#[verifier::external_body]
pub(crate) fn flag_cell(value: bool) -> (cell: AtomicBool)
    ensures
        flag_made_with(cell) == value,
{
    AtomicBool::from(value)
}

/// `AtomicU64::from`: a new cell that holds `value`.
#[verifier::external_body]
pub(crate) fn number_cell(value: u64) -> (cell: AtomicU64)
    ensures
        number_made_with(cell) == value,
{
    AtomicU64::from(value)
}

impl SharedState {
    /// The record that the five cells held when they were made.
    pub open spec fn initial(&self) -> Transport {
        Transport {
            paused: flag_made_with(self.is_paused),
            stopping: flag_made_with(self.should_stop),
            pending_seek: seek_of_raw(number_made_with(self.seek_position_ms)),
            position_ms: number_made_with(self.current_position_ms),
            duration_ms: number_made_with(self.duration_ms),
        }
    }

    /// Cells that hold [`Transport::idle`]: paused, not stopping, no seek
    /// pending, position and duration zero.
    pub fn new() -> (state: Self)
        ensures
            state.initial() == Transport::idle(),
    {
        SharedState::holding(Transport::new())
    }

    /// Cells that hold `t`, each made with its field of `t`.
    pub fn holding(t: Transport) -> (state: Self)
        ensures
            state.initial() == t.stored(),
    {
        SharedState {
            is_paused: flag_cell(t.paused),
            should_stop: flag_cell(t.stopping),
            seek_position_ms: number_cell(raw_seek(t.pending_seek)),
            current_position_ms: number_cell(t.position_ms),
            duration_ms: number_cell(t.duration_ms),
        }
    }

    /// Performs the store `w` on the cell it names.
    pub fn apply(&self, w: CellWrite) {
        match w {
            CellWrite::Paused(flag) => self.is_paused.store(flag, Ordering::Relaxed),
            CellWrite::Stop => self.should_stop.store(true, Ordering::SeqCst),
            CellWrite::Seek(raw) => self.seek_position_ms.store(raw, Ordering::SeqCst),
            CellWrite::Position(ms) => self.current_position_ms.store(ms, Ordering::Relaxed),
            CellWrite::Duration(ms) => self.duration_ms.store(ms, Ordering::Relaxed),
        }
    }

    /// Carries out a command of the handle: its stores, in order.
    pub fn send(&self, cmd: HandleCommand) {
        let ws = cmd.writes();
        let mut i: usize = 0;
        while i < ws.len()
            invariant
                i <= ws.len(),
            decreases ws.len() - i,
        {
            self.apply(ws[i]);
            i += 1;
        }
    }

    /// Reads the stop flag.
    pub(crate) fn stop_requested(&self) -> (stopping: bool) {
        self.should_stop.load(Ordering::Relaxed)
    }

    /// Reads the pause flag.
    pub(crate) fn paused(&self) -> (paused: bool) {
        self.is_paused.load(Ordering::Relaxed)
    }

    /// Reads the playback position.
    pub(crate) fn position_ms(&self) -> (ms: u64) {
        self.current_position_ms.load(Ordering::Relaxed)
    }

    /// Swaps [`NO_SEEK`] into the seek cell and hands out the seek that was
    /// pending, so that each request is taken once.
    pub fn take_seek(&self) -> (target: Option<u64>)
        ensures
            target != Some(NO_SEEK),
    {
        pending_seek(self.seek_position_ms.swap(NO_SEEK, Ordering::SeqCst))
    }

    /// Reads the five cells, one after the other, without changing any.
    pub fn snapshot(&self) -> (t: Transport)
        ensures
            t.pending_seek != Some(NO_SEEK),
    {
        Transport {
            paused: self.is_paused.load(Ordering::Relaxed),
            stopping: self.should_stop.load(Ordering::Relaxed),
            pending_seek: pending_seek(self.seek_position_ms.load(Ordering::SeqCst)),
            position_ms: self.current_position_ms.load(Ordering::Relaxed),
            duration_ms: self.duration_ms.load(Ordering::Relaxed),
        }
    }
}

impl Default for SharedState {
    fn default() -> (state: Self)
        ensures
            state.initial() == Transport::idle(),
    {
        SharedState::new()
    }
}

} // verus!
