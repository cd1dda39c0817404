use decibelle::engine::{
    Engine, EngineAction, EngineInput, PlaybackCommand, PlaybackEvent, PlayerState, SessionInfo,
};

fn info(rate: u32, channels: u32, duration_ms: Option<u64>) -> SessionInfo {
    SessionInfo {
        track_id: 1,
        sample_rate: rate,
        channels,
        total_duration_ms: duration_ms,
        start_position_ms: 0,
    }
}

fn play_cmd() -> EngineInput {
    EngineInput::Command(PlaybackCommand::Play {
        source: String::from("/tmp/book.audio"),
        start_position_ms: 0,
    })
}

fn packet(track_id: u32, samples: Vec<i16>, report: bool) -> EngineInput {
    EngineInput::Packet { track_id, samples, report_position: report }
}

#[test]
fn play_then_open_reports_duration_then_state() {
    let mut e = Engine::new();
    let out = e.step(play_cmd());
    assert_eq!(e.current_state(), PlayerState::Loading);
    assert_eq!(out.events, vec![PlaybackEvent::StateChanged(PlayerState::Loading)]);
    assert_eq!(
        out.action,
        Some(EngineAction::OpenSession {
            source: String::from("/tmp/book.audio"),
            start_position_ms: 0,
        })
    );

    let out = e.step(EngineInput::Opened(info(1000, 2, Some(150_000))));
    assert_eq!(e.current_state(), PlayerState::Playing);
    assert_eq!(
        out.events,
        vec![
            PlaybackEvent::DurationChanged(150_000),
            PlaybackEvent::StateChanged(PlayerState::Playing),
        ]
    );
}

#[test]
fn open_failure_reports_error_then_stops() {
    let mut e = Engine::new();
    e.step(play_cmd());
    let out = e.step(EngineInput::OpenFailed(String::from("no audio track found")));
    assert_eq!(e.current_state(), PlayerState::Stopped);
    assert_eq!(
        out.events,
        vec![
            PlaybackEvent::Error(String::from("no audio track found")),
            PlaybackEvent::StateChanged(PlayerState::Stopped),
        ]
    );
}

#[test]
fn stop_empties_the_buffer_from_any_state() {
    let mut e = Engine::new();
    e.step(play_cmd());
    e.step(EngineInput::Opened(info(1000, 2, None)));
    e.step(packet(1, vec![1, 2, 3, 4], false));
    assert_eq!(e.buffered_samples(), 4);
    let out = e.step(EngineInput::Command(PlaybackCommand::Stop));
    assert_eq!(e.current_state(), PlayerState::Stopped);
    assert_eq!(e.buffered_samples(), 0);
    assert_eq!(out.events, vec![PlaybackEvent::StateChanged(PlayerState::Stopped)]);

    // stop again while already stopped
    let out = e.step(EngineInput::Command(PlaybackCommand::Stop));
    assert_eq!(e.current_state(), PlayerState::Stopped);
    assert_eq!(out.events, vec![PlaybackEvent::StateChanged(PlayerState::Stopped)]);
}

#[test]
fn packets_advance_the_reported_position() {
    let mut e = Engine::new();
    e.step(play_cmd());
    // 1000 frames per second, stereo: one frame per millisecond
    e.step(EngineInput::Opened(info(1000, 2, None)));
    let out = e.step(packet(1, vec![0; 500], false));
    assert_eq!(out.events, vec![]);
    let out = e.step(packet(1, vec![0; 500], true));
    // 500 samples per packet over two channels: 250 frames each, 500 ms total
    assert_eq!(out.events, vec![PlaybackEvent::PositionUpdate(500)]);
    // a packet of another track is skipped
    let out = e.step(packet(9, vec![0; 500], true));
    assert_eq!(out.events, vec![]);
}

#[test]
fn pause_resume_leaves_position_untouched() {
    let mut e = Engine::new();
    e.step(play_cmd());
    e.step(EngineInput::Opened(info(1000, 2, None)));
    e.step(packet(1, vec![0; 2000], false));
    let out = e.step(EngineInput::Command(PlaybackCommand::Pause));
    assert_eq!(out.events, vec![PlaybackEvent::StateChanged(PlayerState::Paused)]);
    let out = e.step(EngineInput::Command(PlaybackCommand::Resume));
    assert_eq!(out.events, vec![PlaybackEvent::StateChanged(PlayerState::Playing)]);
    let out = e.step(packet(1, vec![], true));
    // an empty packet adds no frames: still the 1000 ms from before the pause
    assert_eq!(out.events, vec![PlaybackEvent::PositionUpdate(1000)]);
}

#[test]
fn pause_in_stopped_state_is_ignored() {
    let mut e = Engine::new();
    let out = e.step(EngineInput::Command(PlaybackCommand::Pause));
    assert_eq!(out.events, vec![]);
    let out = e.step(EngineInput::Command(PlaybackCommand::Resume));
    assert_eq!(out.events, vec![]);
    assert_eq!(e.current_state(), PlayerState::Stopped);
}

#[test]
fn seek_clears_buffer_and_reports_the_target() {
    let mut e = Engine::new();
    e.step(play_cmd());
    e.step(EngineInput::Opened(info(1000, 2, None)));
    e.step(packet(1, vec![7; 800], false));
    assert_eq!(e.buffered_samples(), 800);

    let out = e.step(EngineInput::Command(PlaybackCommand::Seek(30_000)));
    assert_eq!(e.buffered_samples(), 0);
    assert_eq!(out.events, vec![]);
    assert_eq!(out.action, Some(EngineAction::SeekDemuxer { target_ms: 30_000 }));

    let out = e.step(EngineInput::SeekDone {
        target_ms: 30_000,
        ok: true,
        message: String::new(),
    });
    assert_eq!(out.events, vec![PlaybackEvent::PositionUpdate(30_000)]);

    // the next packet reports a position just past the seek target
    let out = e.step(packet(1, vec![0; 200], true));
    assert_eq!(out.events, vec![PlaybackEvent::PositionUpdate(30_100)]);
}

#[test]
fn failed_seek_keeps_the_session() {
    let mut e = Engine::new();
    e.step(play_cmd());
    e.step(EngineInput::Opened(info(1000, 2, None)));
    let out = e.step(EngineInput::SeekDone {
        target_ms: 5_000,
        ok: false,
        message: String::from("seek out of range"),
    });
    assert_eq!(out.events, vec![PlaybackEvent::Error(String::from("seek out of range"))]);
    assert_eq!(e.current_state(), PlayerState::Playing);
}

#[test]
fn end_of_stream_drains_before_ending() {
    let mut e = Engine::new();
    e.step(play_cmd());
    e.step(EngineInput::Opened(info(1000, 2, None)));
    e.step(packet(1, vec![5; 6], false));

    // with audio still buffered the engine only asks for a drain
    let out = e.step(EngineInput::EndOfStream);
    assert_eq!(out.events, vec![]);
    assert_eq!(out.action, Some(EngineAction::Drain));
    assert_eq!(e.current_state(), PlayerState::Playing);

    // the device callback drains the buffer
    let rendered = e.render_output(6);
    assert_eq!(rendered, vec![5; 6]);
    assert_eq!(e.buffered_samples(), 0);

    // then exactly one TrackEnded followed by exactly one StateChanged(Stopped)
    let out = e.step(EngineInput::EndOfStream);
    assert_eq!(
        out.events,
        vec![
            PlaybackEvent::TrackEnded,
            PlaybackEvent::StateChanged(PlayerState::Stopped),
        ]
    );
    assert_eq!(out.action, None);
    assert_eq!(e.current_state(), PlayerState::Stopped);
}

#[test]
fn corrupt_frames_are_skipped_and_fatal_errors_stop() {
    let mut e = Engine::new();
    e.step(play_cmd());
    e.step(EngineInput::Opened(info(1000, 2, None)));
    let out = e.step(EngineInput::DecodeError);
    assert_eq!(out.events, vec![]);
    assert_eq!(e.current_state(), PlayerState::Playing);

    let out = e.step(EngineInput::FatalError(String::from("read error")));
    assert_eq!(
        out.events,
        vec![
            PlaybackEvent::Error(String::from("read error")),
            PlaybackEvent::StateChanged(PlayerState::Stopped),
        ]
    );
    assert_eq!(e.current_state(), PlayerState::Stopped);
    assert_eq!(e.buffered_samples(), 0);
}

#[test]
fn reloading_a_source_reports_the_same_duration() {
    let run = || {
        let mut e = Engine::new();
        e.step(play_cmd());
        let out = e.step(EngineInput::Opened(info(44_100, 2, Some(3_600_000))));
        let duration = out.events.iter().find_map(|ev| match ev {
            PlaybackEvent::DurationChanged(d) => Some(*d),
            _ => None,
        });
        // decode everything and run out naturally
        e.step(EngineInput::EndOfStream);
        assert_eq!(e.current_state(), PlayerState::Stopped);
        duration
    };
    let first = run();
    let second = run();
    assert_eq!(first, Some(3_600_000));
    assert_eq!(first, second);
}

#[test]
fn render_emits_silence_while_paused_and_on_underrun() {
    let mut e = Engine::new();
    e.step(play_cmd());
    e.step(EngineInput::Opened(info(1000, 2, None)));
    e.step(packet(1, vec![3; 4], false));

    e.step(EngineInput::Command(PlaybackCommand::Pause));
    assert_eq!(e.render_output(4), vec![0; 4]);
    assert_eq!(e.buffered_samples(), 4);

    e.step(EngineInput::Command(PlaybackCommand::Resume));
    assert_eq!(e.render_output(6), vec![3, 3, 3, 3, 0, 0]);
    assert_eq!(e.buffered_samples(), 0);
}

#[test]
fn backpressure_throttles_decoding() {
    let mut e = Engine::new();
    assert!(!e.should_decode());
    e.step(play_cmd());
    e.step(EngineInput::Opened(info(2, 1, None)));
    // threshold is three seconds: 3 * 2 * 1 = 6 samples
    assert!(e.should_decode());
    e.step(packet(1, vec![0; 6], false));
    assert!(e.should_decode());
    e.step(packet(1, vec![0; 1], false));
    assert!(!e.should_decode());
    e.step(EngineInput::Command(PlaybackCommand::Pause));
    assert!(!e.should_decode());
}

#[test]
fn play_replaces_any_existing_session() {
    let mut e = Engine::new();
    e.step(play_cmd());
    e.step(EngineInput::Opened(info(1000, 2, None)));
    e.step(packet(1, vec![1; 10], false));

    // a second Play drops the old session and its buffered audio
    let out = e.step(play_cmd());
    assert_eq!(e.current_state(), PlayerState::Loading);
    assert_eq!(e.buffered_samples(), 0);
    assert_eq!(out.events, vec![PlaybackEvent::StateChanged(PlayerState::Loading)]);

    // a stale packet for the old session is ignored while loading
    let out = e.step(packet(1, vec![1; 10], true));
    assert_eq!(out.events, vec![]);
    assert_eq!(e.buffered_samples(), 0);
}

#[test]
fn set_speed_is_ignored() {
    let mut e = Engine::new();
    e.step(play_cmd());
    e.step(EngineInput::Opened(info(1000, 2, None)));
    let out = e.step(EngineInput::Command(PlaybackCommand::SetSpeed(150)));
    assert_eq!(out.events, vec![]);
    assert_eq!(out.action, None);
    assert_eq!(e.current_state(), PlayerState::Playing);
}
