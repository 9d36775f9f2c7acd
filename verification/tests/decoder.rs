use audio_player::decoder::gate_action;
use audio_player::decoder::on_full_queue;
use audio_player::decoder::push_samples;
use audio_player::decoder::Decoder;
use audio_player::decoder::DecoderAction;
use audio_player::decoder::DecoderEvent;
use audio_player::decoder::Decision;
use audio_player::decoder::PushProgress;
use audio_player::decoder::ReadOutcome;
use audio_player::decoder::Reading;
use audio_player::decoder::END_POLL_MICROS;
use audio_player::decoder::FULL_POLL_MICROS;
use audio_player::decoder::PAUSE_POLL_MICROS;
use audio_player::output::render;
use audio_player::output::OutputSample;
use audio_player::ring::sample_ring;
use audio_player::timing::SeekTarget;
use audio_player::track::StreamParams;
use audio_player::track::TimeBase;
use audio_player::transport::CellWrite;
use audio_player::transport::HandleCommand;
use audio_player::transport::SharedState;
use audio_player::transport::Transport;

fn params() -> StreamParams {
    StreamParams { track_id: 3, sample_rate: 48000, channels: 2, time_base: Some(TimeBase { numer: 1, denom: 48000 }) }
}

fn playing() -> Transport {
    Transport { paused: false, stopping: false, pending_seek: None, position_ms: 0, duration_ms: 60_000 }
}

fn packet(ts: u64) -> DecoderEvent {
    DecoderEvent::Read(ReadOutcome::Packet { track_id: 3, ts })
}

#[test]
fn poll_intervals() {
    assert_eq!(PAUSE_POLL_MICROS, 5_000);
    assert_eq!(END_POLL_MICROS, 5_000);
    assert!(PAUSE_POLL_MICROS < 10_000 && END_POLL_MICROS < 10_000);
    assert_eq!(FULL_POLL_MICROS, 100);
}

#[test]
fn gate_waits_while_paused() {
    assert_eq!(gate_action(true), DecoderAction::Sleep { micros: 5_000 });
    assert_eq!(gate_action(false), DecoderAction::ReadPacket);
}

#[test]
fn full_queue_waits_or_leaves() {
    assert_eq!(on_full_queue(false), DecoderAction::Sleep { micros: 100 });
    assert_eq!(on_full_queue(true), DecoderAction::Exit);
}

#[test]
fn new_decoder_is_not_seeking() {
    assert_eq!(Decoder::new(params()), Decoder { params: params(), seeking: None });
}

#[test]
fn resume_reads_when_playing() {
    let mut d = Decoder::new(params());
    let (t, action) = d.simulate(playing(), DecoderEvent::Resume);
    assert_eq!(action, DecoderAction::ReadPacket);
    assert_eq!(t, playing());
}

#[test]
fn resume_sleeps_when_paused() {
    let mut d = Decoder::new(params());
    let paused = Transport { paused: true, ..playing() };
    let (t, action) = d.simulate(paused, DecoderEvent::Resume);
    assert_eq!(action, DecoderAction::Sleep { micros: 5_000 });
    assert_eq!(t, paused);
}

#[test]
fn resume_exits_when_stopping() {
    let mut d = Decoder::new(params());
    let stopping = Transport { stopping: true, pending_seek: Some(5), ..playing() };
    let (t, action) = d.simulate(stopping, DecoderEvent::Resume);
    assert_eq!(action, DecoderAction::Exit);
    assert_eq!(t, stopping);
}

#[test]
fn seek_is_taken_before_the_pause_is_looked_at() {
    let mut d = Decoder::new(params());
    let asked = Transport { paused: true, pending_seek: Some(12_345), ..playing() };
    let (t, action) = d.simulate(asked, DecoderEvent::Resume);
    assert_eq!(action, DecoderAction::Seek(SeekTarget { seconds: 12, millis: 345 }));
    assert_eq!(t, Transport { pending_seek: None, ..asked });
    assert_eq!(d.seeking, Some(12_345));
    let (t, action) = d.simulate(t, DecoderEvent::SeekDone);
    assert_eq!(action, DecoderAction::Sleep { micros: 5_000 });
    assert_eq!(t.position_ms, 12_345);
    assert_eq!(d.seeking, None);
}

#[test]
fn seek_reaches_its_target_in_two_steps() {
    let mut d = Decoder::new(params());
    let t = playing().command(HandleCommand::Seek(30_000));
    let (t, first) = d.simulate(t, DecoderEvent::Resume);
    let (t, second) = d.simulate(t, DecoderEvent::SeekDone);
    assert_eq!(first, DecoderAction::Seek(SeekTarget { seconds: 30, millis: 0 }));
    assert_eq!(second, DecoderAction::ReadPacket);
    assert_eq!(t, Transport { position_ms: 30_000, ..playing() });
}

#[test]
fn seek_beyond_duration_is_accepted() {
    let mut d = Decoder::new(params());
    let t = playing().command(HandleCommand::Seek(61_000));
    let (t, _) = d.simulate(t, DecoderEvent::Resume);
    let (t, action) = d.simulate(t, DecoderEvent::SeekDone);
    assert_eq!(t.position_ms, 61_000);
    assert_eq!(action, DecoderAction::ReadPacket);
    let (t, action) = d.simulate(t, DecoderEvent::Read(ReadOutcome::EndOfStream));
    assert_eq!(action, DecoderAction::Sleep { micros: 5_000 });
    assert!(t.paused);
}

#[test]
fn seek_done_without_seek_only_gates() {
    let mut d = Decoder::new(params());
    let (t, action) = d.simulate(playing(), DecoderEvent::SeekDone);
    assert_eq!(t, playing());
    assert_eq!(action, DecoderAction::ReadPacket);
}

#[test]
fn packet_publishes_its_position() {
    let mut d = Decoder::new(params());
    let (t, action) = d.simulate(playing(), packet(96_000));
    assert_eq!(action, DecoderAction::Decode);
    assert_eq!(t, Transport { position_ms: 2000, ..playing() });
}

#[test]
fn packet_without_time_base_keeps_position() {
    let mut d = Decoder::new(StreamParams { time_base: None, ..params() });
    let start = Transport { position_ms: 55, ..playing() };
    let (t, action) = d.simulate(start, packet(96_000));
    assert_eq!(action, DecoderAction::Decode);
    assert_eq!(t, start);
}

#[test]
fn packet_of_another_track_is_skipped() {
    let mut d = Decoder::new(params());
    let start = Transport { position_ms: 55, ..playing() };
    let (t, action) = d.simulate(start, DecoderEvent::Read(ReadOutcome::Packet { track_id: 4, ts: 96_000 }));
    assert_eq!(action, DecoderAction::ReadPacket);
    assert_eq!(t, start);
}

#[test]
fn failed_read_starts_over() {
    let mut d = Decoder::new(params());
    let (t, action) = d.simulate(playing(), DecoderEvent::Read(ReadOutcome::Failed));
    assert_eq!(action, DecoderAction::ReadPacket);
    assert_eq!(t, playing());
    let stopping = Transport { stopping: true, ..playing() };
    let (_, action) = d.simulate(stopping, DecoderEvent::Read(ReadOutcome::Failed));
    assert_eq!(action, DecoderAction::Exit);
}

#[test]
fn end_of_stream_pauses_and_keeps_the_loop() {
    let mut d = Decoder::new(params());
    let start = Transport { position_ms: 59_990, ..playing() };
    let (t, action) = d.simulate(start, DecoderEvent::Read(ReadOutcome::EndOfStream));
    assert_eq!(action, DecoderAction::Sleep { micros: 5_000 });
    assert_eq!(t, Transport { paused: true, ..start });
    let (t, action) = d.simulate(t, DecoderEvent::Resume);
    assert_eq!(action, DecoderAction::Sleep { micros: 5_000 });
    let t = t.command(HandleCommand::Seek(1000)).command(HandleCommand::Play);
    let (t, action) = d.simulate(t, DecoderEvent::Resume);
    assert_eq!(action, DecoderAction::Seek(SeekTarget { seconds: 1, millis: 0 }));
    let (t, action) = d.simulate(t, DecoderEvent::SeekDone);
    assert_eq!(action, DecoderAction::ReadPacket);
    assert_eq!(t.position_ms, 1000);
    assert!(t.is_playing());
}

#[test]
fn position_does_not_advance_while_paused() {
    let mut d = Decoder::new(params());
    let mut t = Transport { position_ms: 4000, ..playing() }.command(HandleCommand::Pause);
    for _ in 0..5 {
        let (next, action) = d.simulate(t, DecoderEvent::Resume);
        assert_eq!(action, DecoderAction::Sleep { micros: 5_000 });
        assert_eq!(next.position_ms, 4000);
        assert!(!next.is_playing());
        t = next;
    }
}

#[test]
fn position_never_falls_without_seek() {
    let mut d = Decoder::new(params());
    let mut t = playing();
    let mut last = 0;
    let events = [
        DecoderEvent::Resume,
        packet(0),
        DecoderEvent::Resume,
        packet(1024),
        DecoderEvent::Read(ReadOutcome::Failed),
        DecoderEvent::Read(ReadOutcome::Packet { track_id: 9, ts: 1 }),
        packet(2048),
        DecoderEvent::Resume,
        packet(480_000),
        DecoderEvent::Read(ReadOutcome::EndOfStream),
        DecoderEvent::Resume,
    ];
    for ev in events {
        let (next, _) = d.simulate(t, ev);
        assert!(next.position_ms >= last);
        last = next.position_ms;
        t = next;
    }
    assert_eq!(last, 10_000);
}

#[test]
fn stop_ends_the_loop_from_any_state() {
    let mut d = Decoder::new(params());
    for start in [playing(), Transport::new(), Transport { pending_seek: Some(9), ..playing() }] {
        let t = start.command(HandleCommand::Stop).command(HandleCommand::Stop);
        let (after, action) = d.simulate(t, DecoderEvent::Resume);
        assert_eq!(action, DecoderAction::Exit);
        assert!(after.stopping);
    }
}

#[test]
fn step_on_cells_agrees_with_the_record() {
    let cells = SharedState::holding(playing());
    let mut on_cells = Decoder::new(params());
    let mut on_record = Decoder::new(params());
    let mut t = playing();
    let script: Vec<(Option<HandleCommand>, DecoderEvent)> = vec![
        (None, DecoderEvent::Resume),
        (None, packet(48_000)),
        (Some(HandleCommand::Pause), DecoderEvent::Resume),
        (Some(HandleCommand::Seek(7000)), DecoderEvent::Resume),
        (None, DecoderEvent::SeekDone),
        (Some(HandleCommand::Play), DecoderEvent::Resume),
        (None, DecoderEvent::Read(ReadOutcome::Failed)),
        (None, DecoderEvent::Read(ReadOutcome::Packet { track_id: 1, ts: 5 })),
        (None, packet(400_000)),
        (None, DecoderEvent::Read(ReadOutcome::EndOfStream)),
        (None, DecoderEvent::Resume),
        (Some(HandleCommand::Stop), DecoderEvent::Resume),
    ];
    for (cmd, ev) in script {
        if let Some(cmd) = cmd {
            cells.send(cmd);
            t = t.command(cmd);
        }
        let action = on_cells.step(&cells, ev);
        let (next, expected) = on_record.simulate(t, ev);
        assert_eq!(action, expected);
        assert_eq!(cells.snapshot(), next);
        assert_eq!(on_cells, on_record);
        t = next;
    }
    assert!(t.stopping);
}

#[test]
fn step_takes_the_seek_out_of_the_cell() {
    let cells = SharedState::new();
    cells.send(HandleCommand::Seek(2500));
    cells.send(HandleCommand::Play);
    let mut d = Decoder::new(params());
    assert_eq!(d.step(&cells, DecoderEvent::Resume), DecoderAction::Seek(SeekTarget { seconds: 2, millis: 500 }));
    assert_eq!(cells.snapshot().pending_seek, None);
    assert_eq!(cells.snapshot().position_ms, 0);
    assert_eq!(d.step(&cells, DecoderEvent::SeekDone), DecoderAction::ReadPacket);
    assert_eq!(cells.snapshot().position_ms, 2500);
}

#[test]
fn push_all_when_there_is_room() {
    let cells = SharedState::new();
    let (mut producer, mut consumer) = sample_ring(8).unwrap();
    let samples = vec![10, 20, 30, 40];
    let progress = push_samples(&cells, &mut producer, &samples, 0);
    assert_eq!(progress, PushProgress { next: 4, action: None });
    let mut out = vec![OutputSample::Bits(99); 4];
    render(false, 1, 1, &mut consumer, &mut out);
    assert_eq!(out, vec![OutputSample::Bits(10), OutputSample::Bits(20), OutputSample::Bits(30), OutputSample::Bits(40)]);
}

#[test]
fn push_stops_at_a_full_queue_and_goes_on_later() {
    let cells = SharedState::new();
    let (mut producer, mut consumer) = sample_ring(3).unwrap();
    let samples = vec![1, 2, 3, 4, 5];
    let progress = push_samples(&cells, &mut producer, &samples, 0);
    assert_eq!(progress, PushProgress { next: 3, action: Some(DecoderAction::Sleep { micros: 100 }) });
    let again = push_samples(&cells, &mut producer, &samples, progress.next);
    assert_eq!(again, progress);
    let mut out = vec![OutputSample::Bits(0); 2];
    render(false, 1, 1, &mut consumer, &mut out);
    assert_eq!(out, vec![OutputSample::Bits(1), OutputSample::Bits(2)]);
    let rest = push_samples(&cells, &mut producer, &samples, progress.next);
    assert_eq!(rest, PushProgress { next: 5, action: None });
    let mut out = vec![OutputSample::Bits(0); 4];
    render(false, 1, 1, &mut consumer, &mut out);
    assert_eq!(out, vec![OutputSample::Bits(3), OutputSample::Bits(4), OutputSample::Bits(5), OutputSample::Bits(0)]);
}

#[test]
fn push_leaves_on_stop_when_full() {
    let cells = SharedState::new();
    let (mut producer, _consumer) = sample_ring(1).unwrap();
    let samples = vec![1, 2];
    cells.send(HandleCommand::Stop);
    let progress = push_samples(&cells, &mut producer, &samples, 0);
    assert_eq!(progress, PushProgress { next: 1, action: Some(DecoderAction::Exit) });
}

#[test]
fn push_from_the_end_or_past_it_pushes_nothing() {
    let cells = SharedState::new();
    let (mut producer, mut consumer) = sample_ring(4).unwrap();
    let samples = vec![1, 2];
    assert_eq!(push_samples(&cells, &mut producer, &samples, 2), PushProgress { next: 2, action: None });
    assert_eq!(push_samples(&cells, &mut producer, &samples, 9), PushProgress { next: 2, action: None });
    assert_eq!(push_samples(&cells, &mut producer, &vec![], 0), PushProgress { next: 0, action: None });
    let mut out = vec![OutputSample::Bits(5); 1];
    render(false, 1, 1, &mut consumer, &mut out);
    assert_eq!(out, vec![OutputSample::Bits(0)]);
}

#[test]
fn push_from_the_middle() {
    let cells = SharedState::new();
    let (mut producer, mut consumer) = sample_ring(4).unwrap();
    let samples = vec![1, 2, 3];
    assert_eq!(push_samples(&cells, &mut producer, &samples, 1), PushProgress { next: 3, action: None });
    let mut out = vec![OutputSample::Bits(5); 2];
    render(false, 1, 1, &mut consumer, &mut out);
    assert_eq!(out, vec![OutputSample::Bits(2), OutputSample::Bits(3)]);
}

fn reading(stopping: bool, pending_seek: Option<u64>, paused: bool) -> Reading {
    Reading { stopping, pending_seek, paused }
}

#[test]
fn which_events_start_an_iteration() {
    let d = Decoder::new(params());
    assert!(d.starts_over(DecoderEvent::Resume));
    assert!(d.starts_over(DecoderEvent::Read(ReadOutcome::Failed)));
    assert!(d.starts_over(DecoderEvent::Read(ReadOutcome::Packet { track_id: 4, ts: 0 })));
    assert!(!d.starts_over(packet(0)));
    assert!(!d.starts_over(DecoderEvent::SeekDone));
    assert!(!d.starts_over(DecoderEvent::Read(ReadOutcome::EndOfStream)));
}

#[test]
fn decide_at_the_start_of_an_iteration() {
    let d = Decoder { params: params(), seeking: Some(3) };
    let idle = Decoder::new(params());
    assert_eq!(
        d.decide(reading(true, None, false), DecoderEvent::Resume),
        Decision { decoder: idle, write: None, action: DecoderAction::Exit }
    );
    assert_eq!(
        d.decide(reading(false, Some(2500), true), DecoderEvent::Resume),
        Decision {
            decoder: Decoder { params: params(), seeking: Some(2500) },
            write: None,
            action: DecoderAction::Seek(SeekTarget { seconds: 2, millis: 500 }),
        }
    );
    assert_eq!(
        d.decide(reading(false, None, true), DecoderEvent::Resume),
        Decision { decoder: idle, write: None, action: DecoderAction::Sleep { micros: 5_000 } }
    );
    assert_eq!(
        d.decide(reading(false, None, false), DecoderEvent::Read(ReadOutcome::Failed)),
        Decision { decoder: idle, write: None, action: DecoderAction::ReadPacket }
    );
}

#[test]
fn decide_after_a_seek_a_packet_and_the_end() {
    let seeking = Decoder { params: params(), seeking: Some(4000) };
    let idle = Decoder::new(params());
    assert_eq!(
        seeking.decide(reading(false, None, false), DecoderEvent::SeekDone),
        Decision { decoder: idle, write: Some(CellWrite::Position(4000)), action: DecoderAction::ReadPacket }
    );
    assert_eq!(
        idle.decide(reading(false, None, true), DecoderEvent::SeekDone),
        Decision { decoder: idle, write: None, action: DecoderAction::Sleep { micros: 5_000 } }
    );
    assert_eq!(
        idle.decide(reading(false, None, false), packet(48_000)),
        Decision { decoder: idle, write: Some(CellWrite::Position(1000)), action: DecoderAction::Decode }
    );
    assert_eq!(
        idle.decide(reading(true, None, true), DecoderEvent::Read(ReadOutcome::EndOfStream)),
        Decision { decoder: idle, write: Some(CellWrite::Paused(true)), action: DecoderAction::Sleep { micros: 5_000 } }
    );
}

#[test]
fn read_cells_takes_the_seek_only_at_the_start_of_an_iteration() {
    let cells = SharedState::holding(Transport { pending_seek: Some(9000), ..playing() });
    let d = Decoder::new(params());
    assert_eq!(d.read_cells(&cells, packet(1)), reading(false, None, false));
    assert_eq!(d.read_cells(&cells, DecoderEvent::SeekDone), reading(false, None, false));
    assert_eq!(cells.snapshot().pending_seek, Some(9000));
    assert_eq!(d.read_cells(&cells, DecoderEvent::Resume), reading(false, Some(9000), false));
    assert_eq!(cells.snapshot().pending_seek, None);
    assert_eq!(d.read_cells(&cells, DecoderEvent::Resume), reading(false, None, false));
}

#[test]
fn read_cells_leaves_the_seek_when_stopping() {
    let cells = SharedState::holding(Transport { pending_seek: Some(9000), stopping: true, paused: true, ..playing() });
    let d = Decoder::new(params());
    assert_eq!(d.read_cells(&cells, DecoderEvent::Resume), reading(true, None, true));
    assert_eq!(cells.snapshot().pending_seek, Some(9000));
}

#[test]
fn seek_to_the_reserved_value_is_carried_out() {
    let cells = SharedState::holding(playing());
    let mut d = Decoder::new(params());
    cells.send(HandleCommand::Seek(u64::MAX));
    let target = u64::MAX - 1;
    assert_eq!(
        d.step(&cells, DecoderEvent::Resume),
        DecoderAction::Seek(SeekTarget { seconds: target / 1000, millis: target % 1000 })
    );
    assert_eq!(d.step(&cells, DecoderEvent::SeekDone), DecoderAction::ReadPacket);
    assert_eq!(cells.snapshot().position_ms, target);
    assert_eq!(d.step(&cells, DecoderEvent::Read(ReadOutcome::EndOfStream)), DecoderAction::Sleep { micros: 5_000 });
    assert!(cells.snapshot().paused);
}

#[test]
fn seek_waits_for_the_start_of_an_iteration() {
    let mut d = Decoder::new(params());
    let t = playing().command(HandleCommand::Seek(1000));
    let (t, action) = d.simulate(t, packet(96_000));
    assert_eq!(action, DecoderAction::Decode);
    assert_eq!(t.pending_seek, Some(1000));
    let (t, action) = d.simulate(t, DecoderEvent::Resume);
    assert_eq!(action, DecoderAction::Seek(SeekTarget { seconds: 1, millis: 0 }));
    let (t, _) = d.simulate(t, DecoderEvent::SeekDone);
    assert_eq!(t.position_ms, 1000);
}
