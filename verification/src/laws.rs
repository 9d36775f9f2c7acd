//! What holds of the transport whatever the handle and the decoder do, in
//! whatever order. The cells are taken as the record [`Transport`]; a step
//! is a command of the handle or an answer of the decoder, and steps do not
//! overlap.

use crate::decoder::gate;
use crate::decoder::Decoder;
use crate::decoder::DecoderAction;
use crate::decoder::DecoderEvent;
use crate::decoder::ReadOutcome;
use crate::decoder::END_POLL_MICROS;
use crate::decoder::PAUSE_POLL_MICROS;
use crate::player::loaded;
use crate::player::PlaybackState;
use crate::timing::duration_millis;
use crate::timing::timestamp_millis;
use crate::timing::SeekTarget;
use crate::timing::MILLIS_PER_SECOND;
use crate::transport::seek_target_of;
use crate::transport::CellWrite;
use crate::transport::HandleCommand;
use crate::transport::Transport;
use crate::transport::NO_SEEK;
use vstd::prelude::*;

verus! {

/// One step of the whole: the handle commands, or the decoder reacts.
pub enum Step {
    Command(HandleCommand),
    Decoder(DecoderEvent),
}

/// The cells together with the decoder's own state.
pub struct System {
    pub transport: Transport,
    pub decoder: Decoder,
}

impl System {
    /// The system after one step.
    pub open spec fn next(self, step: Step) -> System {
        match step {
            Step::Command(cmd) => System { transport: self.transport.commanded(cmd), decoder: self.decoder },
            Step::Decoder(event) => {
                let stepped = self.decoder.stepped(self.transport, event);
                System { transport: stepped.transport, decoder: stepped.decoder }
            },
        }
    }

    /// The system after the steps `steps`, first to last.
    pub open spec fn run(self, steps: Seq<Step>) -> System
        decreases steps.len(),
    {
        if steps.len() == 0 {
            self
        } else {
            self.run(steps.drop_last()).next(steps.last())
        }
    }

    /// Whether no seek is pending or under way.
    pub open spec fn settled(self) -> bool {
        self.transport.pending_seek is None && self.decoder.seeking is None
    }

    /// Whether `step` is a packet of the played track that carries a
    /// position.
    pub open spec fn publishes(self, step: Step) -> Option<u64> {
        match step {
            Step::Decoder(DecoderEvent::Read(ReadOutcome::Packet { track_id, ts })) => if track_id
                == self.decoder.params.track_id {
                match self.decoder.params.time_base {
                    Some(tb) => Some(tb.millis(ts)),
                    None => None,
                }
            } else {
                None
            },
            _ => None,
        }
    }
}

/// Whether `step` is a seek command.
pub open spec fn is_seek(step: Step) -> bool {
    step matches Step::Command(HandleCommand::Seek(_))
}

/// The position that the last packet among `steps` published, or `start`
/// if none did.
pub open spec fn last_published(sys: System, steps: Seq<Step>, start: u64) -> u64
    decreases steps.len(),
{
    if steps.len() == 0 {
        start
    } else {
        match sys.publishes(steps.last()) {
            Some(ms) => ms,
            None => last_published(sys, steps.drop_last(), start),
        }
    }
}

proof fn lemma_commands(t: Transport)
    ensures
        t.commanded(HandleCommand::Play) == t.written(CellWrite::Paused(false)),
        t.commanded(HandleCommand::Pause) == t.written(CellWrite::Paused(true)),
        forall|ms: u64| #[trigger] t.commanded(HandleCommand::Seek(ms)) == t.written(CellWrite::Seek(seek_target_of(ms))),
        t.commanded(HandleCommand::Stop) == t.written(CellWrite::Stop).written(CellWrite::Paused(true)),
{
    reveal_with_fuel(Transport::written_all, 3);
    assert forall|ms: u64| #[trigger] t.commanded(HandleCommand::Seek(ms)) == t.written(
        CellWrite::Seek(seek_target_of(ms)),
    ) by {
        let ws = HandleCommand::Seek(ms).cell_writes();
        assert(ws.skip(1).len() == 0);
    }
    let p = HandleCommand::Play.cell_writes();
    assert(p.skip(1).len() == 0);
    let q = HandleCommand::Pause.cell_writes();
    assert(q.skip(1).len() == 0);
    let s = HandleCommand::Stop.cell_writes();
    assert(s.skip(1).len() == 1);
    assert(s.skip(1)[0] == CellWrite::Paused(true));
    assert(s.skip(1).skip(1).len() == 0);
}

/// A track that has just been loaded is at position zero and is not
/// playing, whatever its duration.
pub proof fn law_loaded_track_is_at_rest(duration_ms: u64)
    ensures
        PlaybackState::of(loaded(duration_ms)) == (PlaybackState {
            position_ms: 0,
            duration_ms,
            is_playing: false,
        }),
        loaded(duration_ms).pending_seek is None,
        !loaded(duration_ms).stopping,
{
}

/// Starting or resuming makes the player play, and changes nothing else.
pub proof fn law_play_plays(t: Transport)
    ensures
        t.commanded(HandleCommand::Play).playing(),
        t.commanded(HandleCommand::Play) == (Transport { paused: false, ..t }),
{
    lemma_commands(t);
}

/// Pausing stops the sound at once, and changes nothing else.
pub proof fn law_pause_silences(t: Transport)
    ensures
        !t.commanded(HandleCommand::Pause).playing(),
        t.commanded(HandleCommand::Pause) == (Transport { paused: true, ..t }),
{
    lemma_commands(t);
}

/// The decoder never resumes playback: whatever it is told, a paused
/// transport stays paused.
pub proof fn law_decoder_never_unpauses(d: Decoder, t: Transport, event: DecoderEvent)
    requires
        t.paused,
    ensures
        d.stepped(t, event).transport.paused,
{
}

/// While paused, with no seek pending and none asked to stop, the start of
/// an iteration leaves every cell as it is and reads no packet: the decoder
/// waits. So the position does not advance while paused.
pub proof fn law_paused_decoder_idles(d: Decoder, t: Transport)
    requires
        t.paused,
        !t.stopping,
        t.pending_seek is None,
    ensures
        d.stepped(t, DecoderEvent::Resume).transport == t,
        d.stepped(t, DecoderEvent::Resume).action == (DecoderAction::Sleep { micros: PAUSE_POLL_MICROS }),
{
}

/// No command of the handle moves the position: the decoder is its only
/// writer.
pub proof fn law_handle_never_writes_position(t: Transport, cmd: HandleCommand)
    ensures
        t.commanded(cmd).position_ms == t.position_ms,
        t.commanded(cmd).duration_ms == t.duration_ms,
{
    lemma_commands(t);
}

/// The decoder writes neither the stop flag nor the duration, and the only
/// thing it does to a pending seek is to take it.
pub proof fn law_decoder_writes(d: Decoder, t: Transport, event: DecoderEvent)
    ensures
        d.stepped(t, event).transport.stopping == t.stopping,
        d.stepped(t, event).transport.duration_ms == t.duration_ms,
        d.stepped(t, event).transport.pending_seek == t.pending_seek || d.stepped(
            t,
            event,
        ).transport.pending_seek is None,
{
}

/// Every seek is accepted and carried out within two answers of a decoder
/// that is not asked to stop: the start of its next iteration takes the
/// target and asks for the seek, and once that is done the position is the
/// target exactly. The target need not lie within the duration; the one
/// value that the seek cell reserves counts as the farthest target.
pub proof fn law_seek_reaches_target(d: Decoder, t: Transport, ms: u64, restart: DecoderEvent)
    requires
        !t.stopping,
        d.restarts(restart),
    ensures
        ({
            let target = seek_target_of(ms);
            let asked = t.commanded(HandleCommand::Seek(ms));
            let taken = d.stepped(asked, restart);
            let done = taken.decoder.stepped(taken.transport, DecoderEvent::SeekDone);
            &&& ms != NO_SEEK ==> target == ms
            &&& asked.pending_seek == Some(target)
            &&& taken.action == DecoderAction::Seek(SeekTarget::of(target))
            &&& taken.transport.pending_seek is None
            &&& done.transport.position_ms == target
            &&& done.transport == (Transport { position_ms: target, pending_seek: None, ..t })
            &&& done.action == gate(t.paused)
            &&& done.decoder == (Decoder { seeking: None, ..d })
        }),
{
    lemma_commands(t);
}

/// A pending seek waits for the start of an iteration: whatever else the
/// decoder is told, the seek stays pending.
pub proof fn law_pending_seek_waits(d: Decoder, t: Transport, event: DecoderEvent)
    requires
        !d.restarts(event),
    ensures
        d.stepped(t, event).transport.pending_seek == t.pending_seek,
        d.stepped(t, event).decoder.params == d.params,
{
}

/// Whether `event` is what the loop reports after doing `action`.
pub open spec fn reports(action: DecoderAction, event: DecoderEvent) -> bool {
    match action {
        DecoderAction::Exit => false,
        DecoderAction::Seek(_) => event == DecoderEvent::SeekDone,
        DecoderAction::Sleep { micros } => event == DecoderEvent::Resume,
        DecoderAction::ReadPacket => event is Read,
        DecoderAction::Decode => event == DecoderEvent::Resume,
    }
}

/// The start of an iteration is never far: of any three events in a row,
/// each the report on the answer before it, one starts an iteration,
/// whatever the cells hold meanwhile. So a seek waits for at most three
/// answers of a running loop, each a single read, a decode or a wait of a
/// few milliseconds.
pub proof fn law_iteration_starts_within_three(
    d: Decoder,
    t1: Transport,
    t2: Transport,
    e1: DecoderEvent,
    e2: DecoderEvent,
    e3: DecoderEvent,
)
    requires
        reports(d.stepped(t1, e1).action, e2),
        reports(d.stepped(t1, e1).decoder.stepped(t2, e2).action, e3),
    ensures
        d.restarts(e1) || d.restarts(e2) || d.restarts(e3),
        PAUSE_POLL_MICROS < 10_000,
        END_POLL_MICROS < 10_000,
{
}

/// Of two seeks that the decoder has not taken, the later one counts.
pub proof fn law_last_seek_wins(t: Transport, first: u64, second: u64)
    ensures
        t.commanded(HandleCommand::Seek(first)).commanded(HandleCommand::Seek(second)) == t.commanded(
            HandleCommand::Seek(second),
        ),
{
    lemma_commands(t);
    lemma_commands(t.commanded(HandleCommand::Seek(first)));
}

/// A pending seek is taken once: after the decoder took it, the next start
/// of an iteration finds none.
pub proof fn law_seek_taken_once(d: Decoder, t: Transport)
    requires
        !t.stopping,
        t.pending_seek is Some,
    ensures
        ({
            let taken = d.stepped(t, DecoderEvent::Resume);
            let again = taken.decoder.stepped(taken.transport, DecoderEvent::Resume);
            &&& taken.action is Seek
            &&& !(again.action is Seek)
        }),
{
}

/// The end of the stream pauses playback and keeps the decoder loop alive:
/// every other cell stays as it was and the decoder waits.
pub proof fn law_end_of_stream_pauses(d: Decoder, t: Transport)
    ensures
        ({
            let ended = d.stepped(t, DecoderEvent::Read(ReadOutcome::EndOfStream));
            &&& ended.transport == (Transport { paused: true, ..t })
            &&& !ended.transport.playing()
            &&& ended.action == (DecoderAction::Sleep { micros: END_POLL_MICROS })
            &&& ended.decoder == d
        }),
{
}

/// After the end of the stream, a seek followed by play brings the decoder
/// back to reading, at the target of the seek, the start of the track
/// included.
pub proof fn law_playback_resumes_after_end(d: Decoder, t: Transport, ms: u64)
    requires
        !t.stopping,
    ensures
        ({
            let ended = d.stepped(t, DecoderEvent::Read(ReadOutcome::EndOfStream));
            let asked = ended.transport.commanded(HandleCommand::Seek(ms)).commanded(HandleCommand::Play);
            let taken = ended.decoder.stepped(asked, DecoderEvent::Resume);
            let done = taken.decoder.stepped(taken.transport, DecoderEvent::SeekDone);
            &&& taken.action == DecoderAction::Seek(SeekTarget::of(seek_target_of(ms)))
            &&& done.transport.position_ms == seek_target_of(ms)
            &&& done.transport.playing()
            &&& done.action == DecoderAction::ReadPacket
        }),
{
    let ended = d.stepped(t, DecoderEvent::Read(ReadOutcome::EndOfStream));
    lemma_commands(ended.transport);
    lemma_commands(ended.transport.commanded(HandleCommand::Seek(ms)));
}

/// Stopping twice is stopping once. After a stop the player is paused, and
/// the decoder leaves at the start of its next iteration.
pub proof fn law_stop_is_idempotent(d: Decoder, t: Transport)
    ensures
        t.commanded(HandleCommand::Stop).commanded(HandleCommand::Stop) == t.commanded(HandleCommand::Stop),
        t.commanded(HandleCommand::Stop) == (Transport { stopping: true, paused: true, ..t }),
        d.stepped(t.commanded(HandleCommand::Stop), DecoderEvent::Resume).action == DecoderAction::Exit,
{
    lemma_commands(t);
    lemma_commands(t.commanded(HandleCommand::Stop));
}

/// The stop flag is never cleared, by whatever steps.
pub proof fn law_stop_is_final(sys: System, steps: Seq<Step>)
    requires
        sys.transport.stopping,
    ensures
        sys.run(steps).transport.stopping,
    decreases steps.len(),
{
    if steps.len() > 0 {
        law_stop_is_final(sys, steps.drop_last());
        lemma_commands(sys.run(steps.drop_last()).transport);
    }
}

/// Without a seek, the position is the one that the last packet of the
/// played track published, or the one at the start if no packet did. No
/// other step moves it.
pub proof fn law_position_is_last_packet(sys: System, steps: Seq<Step>)
    requires
        sys.settled(),
        forall|i: int| 0 <= i < steps.len() ==> !is_seek(#[trigger] steps[i]),
    ensures
        sys.run(steps).transport.position_ms == last_published(sys, steps, sys.transport.position_ms),
        sys.run(steps).settled(),
        sys.run(steps).decoder.params == sys.decoder.params,
    decreases steps.len(),
{
    if steps.len() > 0 {
        let before = steps.drop_last();
        assert forall|i: int| 0 <= i < before.len() implies !is_seek(#[trigger] before[i]) by {
            assert(before[i] == steps[i]);
        }
        law_position_is_last_packet(sys, before);
        let prev = sys.run(before);
        assert(!is_seek(steps[steps.len() - 1]));
        lemma_commands(prev.transport);
    }
}

/// Where `last_published` comes from: the start, if no step published, or
/// the last step that did.
proof fn lemma_last_published_source(sys: System, steps: Seq<Step>, start: u64)
    ensures
        ({
            let at = last_published(sys, steps, start);
            ||| at == start && forall|k: int| 0 <= k < steps.len() ==> sys.publishes(#[trigger] steps[k]) is None
            ||| exists|k: int|
                0 <= k < steps.len() && sys.publishes(#[trigger] steps[k]) == Some(at) && forall|l: int|
                    k < l < steps.len() ==> sys.publishes(#[trigger] steps[l]) is None
        }),
    decreases steps.len(),
{
    if steps.len() > 0 {
        let before = steps.drop_last();
        let n = steps.len() - 1;
        match sys.publishes(steps.last()) {
            Some(ms) => {
                assert(sys.publishes(steps[n]) == Some(ms));
            },
            None => {
                lemma_last_published_source(sys, before, start);
                let at = last_published(sys, before, start);
                if at == start && forall|k: int| 0 <= k < before.len() ==> sys.publishes(#[trigger] before[k]) is None {
                    assert forall|k: int| 0 <= k < steps.len() implies sys.publishes(#[trigger] steps[k]) is None by {
                        if k < n {
                            assert(before[k] == steps[k]);
                        }
                    }
                } else {
                    let k = choose|k: int|
                        0 <= k < before.len() && sys.publishes(#[trigger] before[k]) == Some(at) && forall|l: int|
                            k < l < before.len() ==> sys.publishes(#[trigger] before[l]) is None;
                    assert(before[k] == steps[k]);
                    assert forall|l: int| k < l < steps.len() implies sys.publishes(#[trigger] steps[l]) is None by {
                        if l < n {
                            assert(before[l] == steps[l]);
                        }
                    }
                    assert(sys.publishes(steps[k]) == Some(at));
                }
            },
        }
    }
}

/// Playback only moves forward. If the packets of the played track come
/// with positions that do not fall, none below the position at the start,
/// and nobody seeks, then of two moments the later never shows the smaller
/// position, wherever in between the handle or the decoder took a step.
pub proof fn law_position_never_falls(sys: System, steps: Seq<Step>, earlier: int, later: int)
    requires
        sys.settled(),
        0 <= earlier <= later <= steps.len(),
        forall|i: int| 0 <= i < steps.len() ==> !is_seek(#[trigger] steps[i]),
        forall|a: int, b: int|
            0 <= a <= b < steps.len() && sys.publishes(#[trigger] steps[a]) is Some && sys.publishes(
                #[trigger] steps[b],
            ) is Some ==> sys.publishes(steps[a])->Some_0 <= sys.publishes(steps[b])->Some_0,
        forall|a: int|
            0 <= a < steps.len() && sys.publishes(#[trigger] steps[a]) is Some ==> sys.transport.position_ms
                <= sys.publishes(steps[a])->Some_0,
    ensures
        sys.run(steps.take(earlier)).transport.position_ms <= sys.run(steps.take(later)).transport.position_ms,
{
    let start = sys.transport.position_ms;
    let first = steps.take(earlier);
    let second = steps.take(later);
    assert forall|i: int| 0 <= i < first.len() implies !is_seek(#[trigger] first[i]) by {
        assert(first[i] == steps[i]);
    }
    assert forall|i: int| 0 <= i < second.len() implies !is_seek(#[trigger] second[i]) by {
        assert(second[i] == steps[i]);
    }
    law_position_is_last_packet(sys, first);
    law_position_is_last_packet(sys, second);
    lemma_last_published_source(sys, first, start);
    lemma_last_published_source(sys, second, start);
    let p1 = last_published(sys, first, start);
    let p2 = last_published(sys, second, start);
    if p1 == start && forall|k: int| 0 <= k < first.len() ==> sys.publishes(#[trigger] first[k]) is None {
        if !(p2 == start) {
            let k2 = choose|k: int|
                0 <= k < second.len() && sys.publishes(#[trigger] second[k]) == Some(p2) && forall|l: int|
                    k < l < second.len() ==> sys.publishes(#[trigger] second[l]) is None;
            assert(second[k2] == steps[k2]);
        }
    } else {
        let k1 = choose|k: int|
            0 <= k < first.len() && sys.publishes(#[trigger] first[k]) == Some(p1) && forall|l: int|
                k < l < first.len() ==> sys.publishes(#[trigger] first[l]) is None;
        assert(first[k1] == steps[k1]);
        assert(second[k1] == steps[k1]);
        if p2 == start && forall|k: int| 0 <= k < second.len() ==> sys.publishes(#[trigger] second[k]) is None {
            assert(sys.publishes(second[k1]) is None);
        } else {
            let k2 = choose|k: int|
                0 <= k < second.len() && sys.publishes(#[trigger] second[k]) == Some(p2) && forall|l: int|
                    k < l < second.len() ==> sys.publishes(#[trigger] second[l]) is None;
            assert(second[k2] == steps[k2]);
            if k2 < k1 {
                assert(sys.publishes(second[k1]) is None);
            }
        }
    }
}

/// A later timestamp never stands for an earlier position.
pub proof fn law_later_timestamp_later_position(numer: u32, denom: u32, ts1: u64, ts2: u64)
    requires
        ts1 <= ts2,
    ensures
        timestamp_millis(ts1, numer, denom) <= timestamp_millis(ts2, numer, denom),
{
    let a = ts1 * numer * MILLIS_PER_SECOND;
    let b = ts2 * numer * MILLIS_PER_SECOND;
    assert(a <= b) by (nonlinear_arith)
        requires
            a == ts1 * numer * MILLIS_PER_SECOND,
            b == ts2 * numer * MILLIS_PER_SECOND,
            ts1 <= ts2,
            0 <= numer,
            MILLIS_PER_SECOND == 1000,
    ;
    assert(0 <= a) by (nonlinear_arith)
        requires
            a == ts1 * numer * MILLIS_PER_SECOND,
            0 <= ts1,
            0 <= numer,
            MILLIS_PER_SECOND == 1000,
    ;
    if denom > 0 {
        vstd::arithmetic::div_mod::lemma_div_is_ordered(a, b, denom as int);
    }
}

/// The reported duration is the true one rounded down to a millisecond: a
/// track of `n_frames` frames at `sample_rate` frames a second lasts at
/// least the reported milliseconds, and less than one millisecond more
/// unless the report is capped. A track of unknown length reports zero.
pub proof fn law_duration_within_a_millisecond(n_frames: u64, sample_rate: u32)
    requires
        sample_rate > 0,
    ensures
        duration_millis(None, sample_rate) == 0,
        duration_millis(Some(n_frames), sample_rate) * sample_rate <= n_frames * MILLIS_PER_SECOND,
        duration_millis(Some(n_frames), sample_rate) < u64::MAX ==> n_frames * MILLIS_PER_SECOND < (
        duration_millis(Some(n_frames), sample_rate) + 1) * sample_rate,
{
    let num = n_frames * MILLIS_PER_SECOND;
    let den = sample_rate as int;
    let q = num / den;
    vstd::arithmetic::div_mod::lemma_fundamental_div_mod(num, den);
    vstd::arithmetic::div_mod::lemma_mod_bound(num, den);
    assert(0 <= num) by (nonlinear_arith)
        requires
            num == n_frames * MILLIS_PER_SECOND,
            0 <= n_frames,
            MILLIS_PER_SECOND == 1000,
    ;
    if q > u64::MAX {
        assert(u64::MAX * den <= q * den) by (nonlinear_arith)
            requires
                u64::MAX <= q,
                0 < den,
        ;
        assert(q * den == den * q) by (nonlinear_arith);
    } else {
        assert(q * den == den * q) by (nonlinear_arith);
        assert((q + 1) * den == q * den + den) by (nonlinear_arith);
        assert(0 <= q) by (nonlinear_arith)
            requires
                num == den * q + num % den,
                num % den < den,
                0 <= num,
                0 < den,
        ;
    }
}

} // verus!
