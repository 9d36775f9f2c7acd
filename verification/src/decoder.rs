//! The decoder loop as a machine: it is told what happened outside (a wait
//! ended, a seek was carried out, a packet was read) and answers with the
//! next thing to do. Reading the file, decoding and sleeping are the
//! caller's part; what to do when is decided here.

use crate::ring::producer_limit;
use crate::ring::pushed_samples;
use crate::ring::ring_try_push;
use crate::ring::SampleProducer;
use crate::timing::SeekTarget;
use crate::track::StreamParams;
use crate::transport::CellWrite;
use crate::transport::SharedState;
use crate::transport::Transport;
use crate::transport::NO_SEEK;
use vstd::prelude::*;

verus! {

/// Wait between two looks at the pause flag while paused, in microseconds.
/// It bounds how long a seek or a resume waits for a paused decoder.
pub const PAUSE_POLL_MICROS: u64 = 5_000;

/// Wait after the end of the stream was reached, in microseconds. It
/// bounds how long a seek waits for a decoder that has run out of packets.
pub const END_POLL_MICROS: u64 = 5_000;

/// Wait before the next push into a full queue, in microseconds.
pub const FULL_POLL_MICROS: u64 = 100;

/// How a read of the next packet ended.
#[derive(Clone, Copy, Debug, PartialEq, Eq)]
pub enum ReadOutcome {
    /// A packet of the track `track_id`, stamped `ts`.
    Packet { track_id: u32, ts: u64 },
    /// The stream has no further packet.
    EndOfStream,
    /// The read failed for another reason.
    Failed,
}

/// What happened outside since the decoder last answered.
#[derive(Clone, Copy, Debug, PartialEq, Eq)]
pub enum DecoderEvent {
    /// The loop starts over: at the very start, after a wait, after a packet
    /// was decoded and queued, or after one failed to decode.
    Resume,
    /// The seek that was asked for has been carried out, or has failed.
    SeekDone,
    /// The read that was asked for has ended.
    Read(ReadOutcome),
}

/// What the decoder loop does next.
#[derive(Clone, Copy, Debug, PartialEq, Eq)]
pub enum DecoderAction {
    /// End the loop.
    Exit,
    /// Seek the reader to the target, reset the codec, then report
    /// [`DecoderEvent::SeekDone`].
    Seek(SeekTarget),
    /// Wait, then report [`DecoderEvent::Resume`].
    Sleep { micros: u64 },
    /// Read the next packet, then report [`DecoderEvent::Read`].
    ReadPacket,
    /// Decode the packet just read and queue its samples.
    Decode,
}

/// The decoder's own state between two answers.
#[derive(Clone, Copy, Debug, PartialEq, Eq)]
pub struct Decoder {
    /// The track being played.
    pub params: StreamParams,
    /// Target of the seek that is being carried out.
    pub seeking: Option<u64>,
}

/// What a step reads of the cells before it decides. A cell that the step
/// has no use for is not read and counts as clear.
#[derive(Clone, Copy, Debug, PartialEq, Eq)]
pub struct Reading {
    /// The stop flag.
    pub stopping: bool,
    /// The seek that the step took out of the seek cell, if it took one.
    pub pending_seek: Option<u64>,
    /// The pause flag.
    pub paused: bool,
}

/// What a step decided on what it read.
#[derive(Clone, Copy, Debug, PartialEq, Eq)]
pub struct Decision {
    /// The decoder's own state from now on.
    pub decoder: Decoder,
    /// The store to make, if any.
    pub write: Option<CellWrite>,
    /// What the loop does next.
    pub action: DecoderAction,
}

/// The cells, the decoder and its answer after one event.
pub struct Stepped {
    pub transport: Transport,
    pub decoder: Decoder,
    pub action: DecoderAction,
}

/// What the decoder does once nothing else is to be done first: wait while
/// paused, read otherwise.
pub open spec fn gate(paused: bool) -> DecoderAction {
    if paused {
        DecoderAction::Sleep { micros: PAUSE_POLL_MICROS }
    } else {
        DecoderAction::ReadPacket
    }
}

/// What the decoder does when the queue is full: leave if asked to stop,
/// else wait a moment.
pub open spec fn full_queue_action(stopping: bool) -> DecoderAction {
    if stopping {
        DecoderAction::Exit
    } else {
        DecoderAction::Sleep { micros: FULL_POLL_MICROS }
    }
}

pub fn gate_action(paused: bool) -> (action: DecoderAction)
    ensures
        action == gate(paused),
{
    if paused {
        DecoderAction::Sleep { micros: PAUSE_POLL_MICROS }
    } else {
        DecoderAction::ReadPacket
    }
}

impl Decoder {
    /// The store that a packet of the played track causes: its position,
    /// where the track has a time base.
    pub open spec fn packet_write(self, ts: u64) -> Option<CellWrite> {
        match self.params.time_base {
            Some(tb) => Some(CellWrite::Position(tb.millis(ts))),
            None => None,
        }
    }

    /// Whether `event` sends the loop to the start of an iteration: a
    /// resume, a failed read, or a packet of a track that is not played.
    pub open spec fn restarts(self, event: DecoderEvent) -> bool {
        match event {
            DecoderEvent::Resume => true,
            DecoderEvent::SeekDone => false,
            DecoderEvent::Read(ReadOutcome::Failed) => true,
            DecoderEvent::Read(ReadOutcome::EndOfStream) => false,
            DecoderEvent::Read(ReadOutcome::Packet { track_id, ts }) => track_id != self.params.track_id,
        }
    }

    /// What a step on `event` reads of cells that hold `t`. Only the start
    /// of an iteration looks for a seek, and only if no stop is asked for.
    pub open spec fn reading(self, t: Transport, event: DecoderEvent) -> Reading {
        Reading {
            stopping: t.stopping,
            pending_seek: if self.restarts(event) && !t.stopping {
                t.pending_seek
            } else {
                None
            },
            paused: t.paused,
        }
    }

    /// The cells `t` once the step on `event` has read them: a seek that
    /// the step looked for is taken out.
    pub open spec fn read_through(self, t: Transport, event: DecoderEvent) -> Transport {
        if self.restarts(event) && !t.stopping {
            t.seek_taken()
        } else {
            t
        }
    }

    /// What the decoder decides on `event`, having read `r`.
    ///
    /// At the start of an iteration it leaves if a stop is asked for; else
    /// it carries out the seek it took; else it waits while paused and reads
    /// otherwise. After a seek the target becomes the position, then it
    /// waits or reads. The end of the stream pauses playback and keeps the
    /// loop alive. A packet of the played track publishes its position and
    /// is decoded.
    pub open spec fn decided(self, r: Reading, event: DecoderEvent) -> Decision {
        if self.restarts(event) {
            if r.stopping {
                Decision { decoder: Decoder { seeking: None, ..self }, write: None, action: DecoderAction::Exit }
            } else {
                match r.pending_seek {
                    Some(ms) => Decision {
                        decoder: Decoder { seeking: Some(ms), ..self },
                        write: None,
                        action: DecoderAction::Seek(SeekTarget::of(ms)),
                    },
                    None => Decision {
                        decoder: Decoder { seeking: None, ..self },
                        write: None,
                        action: gate(r.paused),
                    },
                }
            }
        } else {
            match event {
                DecoderEvent::Read(ReadOutcome::EndOfStream) => Decision {
                    decoder: self,
                    write: Some(CellWrite::Paused(true)),
                    action: DecoderAction::Sleep { micros: END_POLL_MICROS },
                },
                DecoderEvent::Read(ReadOutcome::Packet { track_id, ts }) => Decision {
                    decoder: self,
                    write: self.packet_write(ts),
                    action: DecoderAction::Decode,
                },
                _ => Decision {
                    decoder: Decoder { seeking: None, ..self },
                    write: match self.seeking {
                        Some(ms) => Some(CellWrite::Position(ms)),
                        None => None,
                    },
                    action: gate(r.paused),
                },
            }
        }
    }

    /// The cells, the decoder and its answer after `event`, when the cells
    /// held `t` and nobody else touched them meanwhile: the step reads,
    /// decides, and makes the store it decided on.
    pub open spec fn stepped(self, t: Transport, event: DecoderEvent) -> Stepped {
        let d = self.decided(self.reading(t, event), event);
        let read = self.read_through(t, event);
        Stepped {
            transport: match d.write {
                Some(w) => read.written(w),
                None => read,
            },
            decoder: d.decoder,
            action: d.action,
        }
    }

    /// Whether, with the cells holding `t`, the decoder becomes `after` and
    /// answers `action` on `event`.
    pub open spec fn answers(self, t: Transport, event: DecoderEvent, after: Decoder, action: DecoderAction) -> bool {
        self.stepped(t, event).decoder == after && self.stepped(t, event).action == action
    }

    /// A decoder for the track `params`, with no seek under way.
    pub fn new(params: StreamParams) -> (decoder: Decoder)
        ensures
            decoder == (Decoder { params, seeking: None }),
    {
        Decoder { params, seeking: None }
    }

    pub fn starts_over(&self, event: DecoderEvent) -> (yes: bool)
        ensures
            yes == self.restarts(event),
    {
        match event {
            DecoderEvent::Resume => true,
            DecoderEvent::SeekDone => false,
            DecoderEvent::Read(outcome) => match outcome {
                ReadOutcome::Failed => true,
                ReadOutcome::EndOfStream => false,
                ReadOutcome::Packet { track_id, ts } => track_id != self.params.track_id,
            },
        }
    }

    /// Decides on `event`, having read `r`. This is the whole of the
    /// decoder's logic; reading the cells and making the store are left to
    /// the caller.
    pub fn decide(&self, r: Reading, event: DecoderEvent) -> (decision: Decision)
        ensures
            decision == self.decided(r, event),
    {
        if self.starts_over(event) {
            if r.stopping {
                Decision { decoder: Decoder { params: self.params, seeking: None }, write: None, action: DecoderAction::Exit }
            } else {
                match r.pending_seek {
                    Some(ms) => Decision {
                        decoder: Decoder { params: self.params, seeking: Some(ms) },
                        write: None,
                        action: DecoderAction::Seek(SeekTarget::from_millis(ms)),
                    },
                    None => Decision {
                        decoder: Decoder { params: self.params, seeking: None },
                        write: None,
                        action: gate_action(r.paused),
                    },
                }
            }
        } else {
            match event {
                DecoderEvent::Read(ReadOutcome::EndOfStream) => Decision {
                    decoder: *self,
                    write: Some(CellWrite::Paused(true)),
                    action: DecoderAction::Sleep { micros: END_POLL_MICROS },
                },
                DecoderEvent::Read(ReadOutcome::Packet { track_id, ts }) => Decision {
                    decoder: *self,
                    write: match self.params.time_base {
                        Some(tb) => Some(CellWrite::Position(tb.position_ms(ts))),
                        None => None,
                    },
                    action: DecoderAction::Decode,
                },
                _ => Decision {
                    decoder: Decoder { params: self.params, seeking: None },
                    write: match self.seeking {
                        Some(ms) => Some(CellWrite::Position(ms)),
                        None => None,
                    },
                    action: gate_action(r.paused),
                },
            }
        }
    }

    /// One step on a plain record in place of the shared cells: what
    /// [`Decoder::step`] does when the cells hold `t` and stay untouched by
    /// others for the length of the step.
    pub fn simulate(&mut self, t: Transport, event: DecoderEvent) -> (after: (Transport, DecoderAction))
        ensures
            after.0 == old(self).stepped(t, event).transport,
            after.1 == old(self).stepped(t, event).action,
            *final(self) == old(self).stepped(t, event).decoder,
    {
        let looks_for_seek = self.starts_over(event) && !t.stopping;
        let (read, pending) = if looks_for_seek {
            t.take_seek()
        } else {
            (t, None)
        };
        let r = Reading { stopping: t.stopping, pending_seek: pending, paused: t.paused };
        let decision = self.decide(r, event);
        *self = decision.decoder;
        let after = match decision.write {
            Some(w) => read.write(w),
            None => read,
        };
        (after, decision.action)
    }

    /// Reads of the shared cells what a step on `event` needs: the stop
    /// flag; the seek cell, emptied, at the start of an iteration unless a
    /// stop is asked for; the pause flag.
    pub fn read_cells(&self, shared: &SharedState, event: DecoderEvent) -> (r: Reading)
        ensures
            r.pending_seek != Some(NO_SEEK),
            r.pending_seek is Some ==> self.restarts(event) && !r.stopping,
    {
        let stopping = shared.stop_requested();
        let pending = if self.starts_over(event) && !stopping {
            shared.take_seek()
        } else {
            None
        };
        Reading { stopping, pending_seek: pending, paused: shared.paused() }
    }

    /// One step of the decoder loop on the shared cells: read, decide by
    /// [`Decoder::decide`], make the store decided on. The cells are read
    /// one at a time and others may write between two reads, so the answer
    /// is stated for what was read: there is a record `t`, each field of it
    /// a value that its cell held when the step read it, for which the
    /// decoder and the answer are those of [`Decoder::stepped`].
    pub fn step(&mut self, shared: &SharedState, event: DecoderEvent) -> (action: DecoderAction)
        ensures
            exists|t: Transport| old(self).answers(t, event, *final(self), action),
    {
        let r = self.read_cells(shared, event);
        let decision = self.decide(r, event);
        match decision.write {
            Some(w) => shared.apply(w),
            None => {},
        }
        proof {
            let t = Transport { stopping: r.stopping, pending_seek: r.pending_seek, paused: r.paused, ..Transport::idle() };
            assert(self.reading(t, event) == r);
            assert(self.answers(t, event, decision.decoder, decision.action));
        }
        *self = decision.decoder;
        decision.action
    }
}

/// How far a batch of samples got into the queue.
#[derive(Clone, Copy, Debug, PartialEq, Eq)]
pub struct PushProgress {
    /// Index of the first sample that is not in the queue yet.
    pub next: usize,
    /// What to do before the rest is pushed; `None` once nothing is left.
    pub action: Option<DecoderAction>,
}

pub fn on_full_queue(stopping: bool) -> (action: DecoderAction)
    ensures
        action == full_queue_action(stopping),
{
    if stopping {
        DecoderAction::Exit
    } else {
        DecoderAction::Sleep { micros: FULL_POLL_MICROS }
    }
}

/// Where pushing starts in a batch of `len` samples when asked to start at
/// `start`: a start past the end leaves nothing to push.
pub open spec fn push_start(start: usize, len: nat) -> int {
    if start <= len {
        start as int
    } else {
        len as int
    }
}

/// Pushes `samples[start..]` into the queue, in order, until all are in or
/// the queue is full. On a full queue the stop flag decides between leaving
/// and waiting; the caller waits and calls again with `start` set to the
/// `next` it was given. No sample is skipped, repeated or reordered.
pub fn push_samples(
    shared: &SharedState,
    producer: &mut SampleProducer,
    samples: &Vec<u32>,
    start: usize,
) -> (progress: PushProgress)
    ensures
        push_start(start, samples@.len()) <= progress.next <= samples.len(),
        pushed_samples(*final(producer)) == pushed_samples(*old(producer)) + samples@.subrange(
            push_start(start, samples@.len()),
            progress.next as int,
        ),
        progress.action is None <==> progress.next == samples.len(),
        progress.action is Some ==> exists|stopping: bool| progress.action == Some(full_queue_action(stopping)),
        producer_limit(*final(producer)) == producer_limit(*old(producer)),
{
    let first: usize = if start <= samples.len() {
        start
    } else {
        samples.len()
    };
    let mut i: usize = first;
    assert(samples@.subrange(first as int, i as int) =~= Seq::<u32>::empty());
    assert(pushed_samples(*producer) + Seq::<u32>::empty() =~= pushed_samples(*producer));
    while i < samples.len()
        invariant
            first == push_start(start, samples@.len()),
            first <= i <= samples.len(),
            pushed_samples(*producer) == pushed_samples(*old(producer)) + samples@.subrange(first as int, i as int),
            producer_limit(*producer) == producer_limit(*old(producer)),
        decreases samples.len() - i,
    {
        match ring_try_push(producer, samples[i]) {
            Ok(_) => {
                assert(samples@.subrange(first as int, i as int).push(samples@[i as int]) =~= samples@.subrange(
                    first as int,
                    i + 1,
                ));
                assert(pushed_samples(*producer) =~= pushed_samples(*old(producer)) + samples@.subrange(
                    first as int,
                    i + 1,
                ));
                i += 1;
            },
            Err(_) => {
                let stopping = shared.stop_requested();
                return PushProgress { next: i, action: Some(on_full_queue(stopping)) };
            },
        }
    }
    PushProgress { next: i, action: None }
}

} // verus!
