use decibelle::api_models::{Chapter, LibraryItemInfo};
use decibelle::engine::{PlaybackCommand, PlayerState};
use decibelle::orchestrator::{chapter_index_at, Focus, Orchestrator, OrchestratorAction};
use decibelle::tracks::{find_track_for_position, plan_playback, AudioTrack, DownloadPlan, TrackInfo};

fn track(index: i32, start_s: u64, duration_s: u64) -> AudioTrack {
    AudioTrack {
        index,
        start_offset_ms: start_s * 1000,
        duration_ms: duration_s * 1000,
        title: format!("Track {}", index),
        content_url: format!("/track/{}", index),
        mime_type: String::from("audio/mpeg"),
        metadata: None,
    }
}

fn chapter(id: i32, start_s: u64, end_s: u64, title: &str) -> Chapter {
    Chapter { id, start_ms: start_s * 1000, end_ms: end_s * 1000, title: String::from(title) }
}

fn two_track_book() -> Orchestrator {
    let mut o = Orchestrator::new();
    o.auto_resume_pending = false;
    o.current_item = Some(LibraryItemInfo {
        id: String::from("book-1"),
        duration_ms: Some(150_000),
        tracks: vec![track(0, 0, 100), track(1, 100, 50)],
    });
    o.current_item_id = Some(String::from("book-1"));
    o.current_tracks = vec![track(0, 0, 100), track(1, 100, 50)];
    o
}

#[test]
fn chapter_lookup_resolves_by_span() {
    // chapters [{0,30,"A"},{30,90,"B"}]: 45s lies in "B", 95s past the last
    let chapters = vec![chapter(0, 0, 30, "A"), chapter(1, 30, 90, "B")];
    assert_eq!(chapter_index_at(&chapters, 45_000), Some(1));
    assert_eq!(chapters[1].title, "B");
    assert_eq!(chapter_index_at(&chapters, 10_000), Some(0));
    assert_eq!(chapter_index_at(&chapters, 95_000), None);
    assert_eq!(chapter_index_at(&chapters, 30_000), Some(1));
}

#[test]
fn position_updates_resolve_the_current_chapter() {
    let mut o = two_track_book();
    o.chapters = vec![chapter(0, 0, 30, "A"), chapter(1, 30, 90, "B")];
    o.current_track_info = Some(TrackInfo { index: 0, start_offset_ms: 0, duration_ms: 100_000 });

    o.on_position_update(45_000);
    assert_eq!(o.current_position_ms, 45_000);
    assert_eq!(o.current_chapter, Some(1));
    assert_eq!(o.selected_chapter_index, 1);

    // past the last chapter there is no current chapter
    o.on_position_update(95_000);
    assert_eq!(o.current_chapter, None);
}

#[test]
fn global_position_adds_the_track_offset() {
    let mut o = two_track_book();
    o.current_track_info = Some(TrackInfo { index: 1, start_offset_ms: 100_000, duration_ms: 50_000 });
    let acts = o.on_position_update(20_000);
    assert_eq!(o.current_position_ms, 120_000);
    assert!(acts.is_empty());
}

#[test]
fn boundary_lookahead_requests_the_next_track() {
    let mut o = two_track_book();
    o.current_track_info = Some(TrackInfo { index: 0, start_offset_ms: 0, duration_ms: 100_000 });

    // well before the boundary nothing happens
    let acts = o.on_position_update(95_000);
    assert!(acts.is_empty());

    // within half a second of the track end the next track is requested,
    // starting just past the boundary
    let acts = o.on_position_update(99_600);
    assert_eq!(
        acts,
        vec![OrchestratorAction::Download {
            item_id: String::from("book-1"),
            position_ms: 100_100,
        }]
    );
}

#[test]
fn handoff_keeps_global_position_monotonic() {
    let mut o = two_track_book();
    o.current_track_info = Some(TrackInfo { index: 0, start_offset_ms: 0, duration_ms: 100_000 });

    // playback from 95s to the boundary: positions rise
    let mut last = 0;
    for local in [95_000u64, 97_000, 99_000, 99_900] {
        o.on_position_update(local);
        assert!(o.current_position_ms >= last);
        last = o.current_position_ms;
    }

    // the handoff loads track 2 just past the boundary, without a stop
    let act = o.on_download_finished(
        String::from("/tmp/decibelle_book-1_1.audio"),
        100,
        TrackInfo { index: 1, start_offset_ms: 100_000, duration_ms: 50_000 },
    );
    match act {
        OrchestratorAction::Player(PlaybackCommand::Play { start_position_ms, .. }) => {
            assert_eq!(start_position_ms, 100);
        }
        other => panic!("unexpected action {:?}", other),
    }

    // the first position of the new track never falls behind the old ones
    o.on_position_update(100);
    assert_eq!(o.current_position_ms, 100_100);
    assert!(o.current_position_ms >= last);
}

#[test]
fn global_seek_across_tracks_loads_the_right_track() {
    let o = two_track_book();
    let mut o = o;
    o.current_track_info = Some(TrackInfo { index: 0, start_offset_ms: 0, duration_ms: 100_000 });
    o.total_duration_ms = 150_000;

    // seeking to 120s leaves the loaded track: stop, then download
    let acts = o.seek_to_global_position(120_000);
    assert_eq!(acts.len(), 2);
    assert_eq!(acts[0], OrchestratorAction::Player(PlaybackCommand::Stop));
    assert_eq!(
        acts[1],
        OrchestratorAction::Download { item_id: String::from("book-1"), position_ms: 120_000 }
    );

    // the download side resolves 120s to track 2 with local offset 20s
    let plan = plan_playback(&o.current_tracks, 120_000);
    assert_eq!(
        plan,
        DownloadPlan::Track {
            track_index: 1,
            local_position_ms: 20_000,
            info: TrackInfo { index: 1, start_offset_ms: 100_000, duration_ms: 50_000 },
        }
    );

    // a seek within the loaded track stays local
    let acts = o.seek_to_global_position(40_000);
    assert_eq!(acts, vec![OrchestratorAction::Player(PlaybackCommand::Seek(40_000))]);
}

#[test]
fn find_track_honours_half_open_spans() {
    let tracks = vec![track(0, 0, 100), track(1, 100, 50)];
    assert_eq!(find_track_for_position(&tracks, 0), Some(0));
    assert_eq!(find_track_for_position(&tracks, 99_999), Some(0));
    assert_eq!(find_track_for_position(&tracks, 100_000), Some(1));
    assert_eq!(find_track_for_position(&tracks, 150_000), None);
    assert_eq!(plan_playback(&Vec::new(), 7), DownloadPlan::WholeFile {
        local_position_ms: 7,
        info: TrackInfo::single_file(),
    });
}

#[test]
fn seek_forward_clamps_to_the_total_duration() {
    let mut o = two_track_book();
    o.current_track_info = None;
    o.total_duration_ms = 150_000;
    o.current_position_ms = 149_000;
    let acts = o.seek_forward(5_000);
    assert_eq!(acts, vec![OrchestratorAction::Player(PlaybackCommand::Seek(150_000))]);

    o.current_position_ms = 3_000;
    let acts = o.seek_backward(5_000);
    assert_eq!(acts, vec![OrchestratorAction::Player(PlaybackCommand::Seek(0))]);
}

#[test]
fn progress_is_reported_when_leaving_active_playback() {
    let mut o = two_track_book();
    o.player_state = PlayerState::Playing;
    o.current_position_ms = 60_000;

    let acts = o.on_player_state_changed(PlayerState::Paused);
    assert_eq!(
        acts,
        vec![OrchestratorAction::SyncProgress {
            item_id: String::from("book-1"),
            current_time_ms: 60_000,
            duration_ms: 150_000,
            is_finished: false,
        }]
    );
    assert_eq!(o.player_state, PlayerState::Paused);

    // within a second of the end the book counts as finished
    o.player_state = PlayerState::Playing;
    o.current_position_ms = 149_200;
    let acts = o.on_player_state_changed(PlayerState::Stopped);
    match &acts[0] {
        OrchestratorAction::SyncProgress { is_finished, .. } => assert!(is_finished),
        other => panic!("unexpected action {:?}", other),
    }

    // a transition into playback reports nothing
    let acts = o.on_player_state_changed(PlayerState::Playing);
    assert!(acts.is_empty());
}

#[test]
fn first_state_change_triggers_the_auto_resume_pause() {
    let mut o = Orchestrator::new();
    assert!(o.auto_resume_pending);
    let acts = o.on_player_state_changed(PlayerState::Playing);
    assert_eq!(acts, vec![OrchestratorAction::Player(PlaybackCommand::Pause)]);
    assert!(!o.auto_resume_pending);
}

#[test]
fn continue_listening_rewinds_and_downloads() {
    let mut o = Orchestrator::new();
    o.library_items = vec![
        LibraryItemInfo { id: String::from("other"), duration_ms: None, tracks: vec![] },
        LibraryItemInfo { id: String::from("book-1"), duration_ms: None, tracks: vec![] },
    ];
    let item = LibraryItemInfo {
        id: String::from("book-1"),
        duration_ms: Some(150_000),
        tracks: vec![track(0, 0, 100)],
    };
    let acts = o.on_continue_listening_loaded(item, 42_000);
    assert_eq!(o.selected_library_item_index, 1);
    assert_eq!(o.focus, Focus::Chapters);
    assert_eq!(o.current_item_id, Some(String::from("book-1")));
    assert_eq!(acts.len(), 2);
    assert_eq!(acts[0], OrchestratorAction::FetchChapters { item_id: String::from("book-1") });
    assert_eq!(
        acts[1],
        OrchestratorAction::Download { item_id: String::from("book-1"), position_ms: 32_000 }
    );

    // the first state change consumes the pending auto-resume; after that
    // the shelf is ignored
    o.on_player_state_changed(PlayerState::Playing);
    assert!(!o.auto_resume_pending);
    let item2 = LibraryItemInfo { id: String::from("x"), duration_ms: None, tracks: vec![] };
    let acts = o.on_continue_listening_loaded(item2, 10_000);
    assert!(acts.is_empty());
}

#[test]
fn toggle_matches_the_player_state() {
    let mut o = two_track_book();
    o.player_state = PlayerState::Playing;
    assert_eq!(
        o.toggle_playback(),
        vec![OrchestratorAction::Player(PlaybackCommand::Pause)]
    );
    o.player_state = PlayerState::Paused;
    assert_eq!(
        o.toggle_playback(),
        vec![OrchestratorAction::Player(PlaybackCommand::Resume)]
    );
    o.player_state = PlayerState::Loading;
    assert!(o.toggle_playback().is_empty());

    o.player_state = PlayerState::Stopped;
    o.chapters = vec![chapter(0, 0, 30, "A")];
    o.library_items = vec![LibraryItemInfo {
        id: String::from("book-1"),
        duration_ms: None,
        tracks: vec![],
    }];
    let acts = o.toggle_playback();
    assert_eq!(acts.len(), 1);
    match &acts[0] {
        OrchestratorAction::Player(PlaybackCommand::Play { source, start_position_ms }) => {
            assert_eq!(source, "/tmp/decibelle_book-1.audio");
            assert_eq!(*start_position_ms, 0);
        }
        other => panic!("unexpected action {:?}", other),
    }
    assert_eq!(o.current_chapter, Some(0));
}

#[test]
fn focus_cycles_through_all_panes() {
    let mut o = Orchestrator::new();
    assert_eq!(o.focus, Focus::Libraries);
    o.cycle_focus(false);
    assert_eq!(o.focus, Focus::Chapters);
    o.cycle_focus(false);
    assert_eq!(o.focus, Focus::InfoPanel);
    o.cycle_focus(false);
    assert_eq!(o.focus, Focus::Controls);
    o.cycle_focus(false);
    assert_eq!(o.focus, Focus::Libraries);
    o.cycle_focus(true);
    assert_eq!(o.focus, Focus::Controls);
}

#[test]
fn selection_sticks_at_list_ends() {
    let mut o = Orchestrator::new();
    o.chapters = vec![chapter(0, 0, 30, "A"), chapter(1, 30, 90, "B")];
    o.next_chapter();
    assert_eq!(o.selected_chapter_index, 1);
    o.next_chapter();
    assert_eq!(o.selected_chapter_index, 1);
    o.previous_chapter();
    assert_eq!(o.selected_chapter_index, 0);
    o.previous_chapter();
    assert_eq!(o.selected_chapter_index, 0);
    // an empty list leaves the selection alone
    let mut o2 = Orchestrator::new();
    o2.next_library();
    assert_eq!(o2.selected_library_index, 0);
}

#[test]
fn player_errors_stop_the_mirrored_state() {
    let mut o = two_track_book();
    o.player_state = PlayerState::Playing;
    o.on_player_error(String::from("decode failed"));
    assert_eq!(o.player_state, PlayerState::Stopped);
    assert_eq!(o.error_message, Some(String::from("decode failed")));
}
