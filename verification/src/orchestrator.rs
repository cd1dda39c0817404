//! The track/position orchestrator.
//!
//! The engine plays one track at a time and reports track-local positions;
//! the orchestrator presents a single seekable book timeline on top of
//! that.  It converts local positions to global ones, resolves the current
//! chapter, prefetches the next track near a track boundary, routes global
//! seeks either to the loaded track or to a download of the right track,
//! and reports listening progress at state-change boundaries.
//!
//! Like the engine it performs no I/O itself: every method returns the
//! [`OrchestratorAction`] values the caller must carry out.

use crate::api_models::{spec_chapter_contains, Chapter, Library, LibraryItemInfo};
use crate::engine::{PlaybackCommand, PlayerState};
use crate::layout::LayoutRegions;
use crate::timecode::sat_add_ms;
use crate::tracks::{AudioTrack, TrackInfo};
use vstd::prelude::*;
use vstd::string::*;

verus! {

/// Distance from the end of the current track, in milliseconds, at which
/// the next track's download is requested.
pub const BOUNDARY_MARGIN_MS: u64 = 500;

/// How far past the track boundary the next track is started, to avoid
/// re-decoding audio that was already heard.
pub const HANDOFF_SKIP_MS: u64 = 100;

/// How far playback rewinds when resuming a book, in milliseconds.
pub const RESUME_REWIND_MS: u64 = 10000;

/// A book within this of its total duration counts as finished.
pub const FINISH_SLACK_MS: u64 = 1000;

/// Which pane of the interface holds the focus.
#[derive(Clone, Copy, Debug, PartialEq, Eq, Structural)]
pub enum Focus {
    Libraries,
    Chapters,
    Controls,
    InfoPanel,
}

/// Work the orchestrator asks its caller to carry out: a command for the
/// player, or a request to the media server.
#[derive(Clone, Debug, PartialEq)]
pub enum OrchestratorAction {
    Player(PlaybackCommand),
    Download { item_id: String, position_ms: u64 },
    FetchLibraryItems { library_id: String },
    FetchChapters { item_id: String },
    FetchContinueListening { library_id: String },
    SyncProgress { item_id: String, current_time_ms: u64, duration_ms: u64, is_finished: bool },
}

/// The orchestrator's state: the library browser selection, the loaded
/// book with its chapters and tracks, and the mirrored player state.
#[verifier::ext_equal]
pub struct Orchestrator {
    pub selected_library_index: usize,
    pub selected_library_item_index: usize,
    pub selected_chapter_index: usize,
    pub libraries: Vec<Library>,
    pub library_items: Vec<LibraryItemInfo>,
    pub chapters: Vec<Chapter>,
    pub current_chapter: Option<usize>,
    pub current_item: Option<LibraryItemInfo>,
    pub current_item_id: Option<String>,
    pub focus: Focus,
    pub info_scroll: u16,
    pub player_state: PlayerState,
    pub current_position_ms: u64,
    pub total_duration_ms: u64,
    pub current_track_info: Option<TrackInfo>,
    pub current_tracks: Vec<AudioTrack>,
    pub auto_resume_pending: bool,
    pub error_message: Option<String>,
    pub should_quit: bool,
    pub layout_regions: LayoutRegions,
}

/// Global position corresponding to a track-local one, before saturation.
pub open spec fn spec_global_of(info: Option<TrackInfo>, local_ms: int) -> int {
    match info {
        Some(t) => t.start_offset_ms + local_ms,
        None => local_ms,
    }
}

/// End of the loaded track's span on the global timeline.
pub open spec fn spec_info_end(t: TrackInfo) -> int {
    t.start_offset_ms + t.duration_ms
}

/// Whether the look-ahead requests the next track: the global position has
/// come within the margin of the loaded track's end, a track with the next
/// index exists, and a book is loaded.
pub open spec fn spec_boundary_triggers(
    info: Option<TrackInfo>,
    tracks: Seq<AudioTrack>,
    item: Option<LibraryItemInfo>,
    global_ms: int,
) -> bool {
    match info {
        Some(t) => {
            &&& global_ms + BOUNDARY_MARGIN_MS >= spec_info_end(t)
            &&& exists|j: int| 0 <= j < tracks.len() && tracks[j].index == t.index + 1
            &&& item is Some
        },
        None => false,
    }
}

/// The player-state transitions at which listening progress is reported.
pub open spec fn spec_sync_transition(prev: PlayerState, next: PlayerState) -> bool {
    ||| (prev is Playing && next is Paused)
    ||| (prev is Playing && next is Stopped)
    ||| (prev is Paused && next is Stopped)
}

/// The total duration reported to the progress sync: the book's own
/// duration when the server gave one, else the duration the player
/// announced.
pub open spec fn spec_total_duration(o: &Orchestrator) -> u64 {
    match o.current_item {
        Some(it) => match it.duration_ms {
            Some(d) => d,
            None => o.total_duration_ms,
        },
        None => o.total_duration_ms,
    }
}

/// Whether a position counts as having finished the book.
pub open spec fn spec_is_finished(duration_ms: int, current_ms: int) -> bool {
    duration_ms > 0 && current_ms + FINISH_SLACK_MS >= duration_ms
}

/// The actions a global seek produces: a local seek when the target falls
/// inside the loaded track's span; stop-and-download of the right track
/// when it falls outside and a book is loaded; a direct seek in
/// single-file mode.
pub open spec fn spec_seek_acts(o: &Orchestrator, g: int, acts: Seq<OrchestratorAction>) -> bool {
    match o.current_track_info {
        Some(t) => {
            if t.start_offset_ms <= g < spec_info_end(t) {
                acts == seq![
                    OrchestratorAction::Player(
                        PlaybackCommand::Seek((g - t.start_offset_ms) as u64),
                    ),
                ]
            } else {
                match o.current_item {
                    Some(it) => {
                        &&& acts.len() == 2
                        &&& acts[0] == OrchestratorAction::Player(PlaybackCommand::Stop)
                        &&& (acts[1] matches OrchestratorAction::Download { item_id, position_ms }
                            && item_id@ == it.id@ && position_ms == g)
                    },
                    None => acts.len() == 0,
                }
            }
        },
        None => acts == seq![OrchestratorAction::Player(PlaybackCommand::Seek(g as u64))],
    }
}

/// Whether the cached current chapter still contains the position, so the
/// scan over the chapter list can be skipped.
pub open spec fn spec_chapter_sticky(cs: Seq<Chapter>, cur: Option<usize>, pos: int) -> bool {
    match cur {
        Some(i) => i < cs.len() && spec_chapter_contains(&cs[i as int], pos),
        None => false,
    }
}

/// How the current chapter is re-resolved at a new position `pos`: kept
/// while the cached chapter still contains it; otherwise the first
/// containing chapter is selected; past the last chapter there is no
/// current chapter; in a gap, and when no book is loaded, nothing changes.
pub open spec fn spec_chapter_resolution(
    pre: &Orchestrator,
    pos: int,
    new_chapter: Option<usize>,
    new_selected: int,
) -> bool {
    let cs = pre.chapters@;
    if pre.current_item_id is None {
        new_chapter == pre.current_chapter && new_selected == pre.selected_chapter_index as int
    } else if spec_chapter_sticky(cs, pre.current_chapter, pos) {
        new_chapter == pre.current_chapter && new_selected == pre.selected_chapter_index as int
    } else if exists|j: int| 0 <= j < cs.len() && spec_chapter_contains(&cs[j], pos) {
        new_chapter matches Some(i) && i < cs.len() && spec_chapter_contains(&cs[i as int], pos)
            && (forall|k: int| 0 <= k < i ==> !spec_chapter_contains(&cs[k], pos)) && new_selected
            == i as int
    } else if cs.len() > 0 && pos >= cs.last().end_ms {
        new_chapter is None && new_selected == pre.selected_chapter_index as int
    } else {
        new_chapter == pre.current_chapter && new_selected == pre.selected_chapter_index as int
    }
}

/// The actions of the track-boundary look-ahead at global position
/// `global_ms`: one download request for the next track when it triggers,
/// none otherwise.
pub open spec fn spec_boundary_acts(
    o: &Orchestrator,
    global_ms: int,
    acts: Seq<OrchestratorAction>,
) -> bool {
    if spec_boundary_triggers(o.current_track_info, o.current_tracks@, o.current_item, global_ms) {
        &&& acts.len() == 1
        &&& (acts[0] matches OrchestratorAction::Download { item_id, position_ms } && item_id@
            == o.current_item->Some_0.id@ && position_ms == ({
            let h = spec_info_end(o.current_track_info->Some_0) + HANDOFF_SKIP_MS;
            if h > u64::MAX as int {
                u64::MAX as int
            } else {
                h
            }
        }))
    } else {
        acts.len() == 0
    }
}

/// The target of a forward seek: the current position moved by the delta,
/// clamped to the total duration.
pub open spec fn spec_clamped_forward_target(o: &Orchestrator, delta_ms: int) -> int {
    if o.current_position_ms + delta_ms < o.total_duration_ms {
        o.current_position_ms + delta_ms
    } else {
        o.total_duration_ms as int
    }
}

/// The book-global path under which a downloaded item is cached.
pub open spec fn spec_audio_cache_path(id: Seq<char>) -> Seq<char> {
    "/tmp/decibelle_"@ + id + ".audio"@
}

/// Whether both a chapter and a library item are selected, so that the
/// selected chapter can be played.
pub open spec fn spec_can_play_selection(o: &Orchestrator) -> bool {
    o.selected_chapter_index < o.chapters@.len() && o.selected_library_item_index
        < o.library_items@.len()
}

/// The play command that starts the selected chapter of the selected item.
pub open spec fn spec_play_selection_act(o: &Orchestrator, act: OrchestratorAction) -> bool {
    act matches OrchestratorAction::Player(PlaybackCommand::Play { source, start_position_ms })
        && source@ == spec_audio_cache_path(
        o.library_items@[o.selected_library_item_index as int].id@,
    ) && start_position_ms == o.chapters@[o.selected_chapter_index as int].start_ms
}

/// The state after the selected chapter was chosen for playback.
pub open spec fn spec_play_selection_state(pre: &Orchestrator, post: &Orchestrator) -> bool {
    &&& *post == (Orchestrator {
        current_chapter: Some(pre.selected_chapter_index),
        current_item_id: post.current_item_id,
        ..*pre
    })
    &&& (post.current_item_id matches Some(id) && id@ == pre.library_items@[
        pre.selected_library_item_index as int
    ].id@)
}

/// Index of the first chapter whose span contains `position_ms`, if any.
pub fn chapter_index_at(chapters: &Vec<Chapter>, position_ms: u64) -> (r: Option<usize>)
    ensures
        match r {
            Some(i) => {
                &&& i < chapters@.len()
                &&& spec_chapter_contains(&chapters@[i as int], position_ms as int)
                &&& forall|j: int|
                    0 <= j < i ==> !spec_chapter_contains(&chapters@[j], position_ms as int)
            },
            None => forall|j: int|
                0 <= j < chapters@.len() ==> !spec_chapter_contains(
                    &chapters@[j],
                    position_ms as int,
                ),
        },
{
    let n = chapters.len();
    for i in 0..n
        invariant
            n == chapters@.len(),
            forall|j: int| 0 <= j < i ==> !spec_chapter_contains(&chapters@[j], position_ms as int),
    {
        if chapters[i].contains(position_ms) {
            return Some(i);
        }
    }
    None
}

impl Orchestrator {
    /// A fresh orchestrator: nothing loaded, player stopped, focus on the
    /// library list, with the one-time auto-resume still pending.
    pub fn new() -> (r: Orchestrator)
        ensures
            r.selected_library_index == 0,
            r.selected_library_item_index == 0,
            r.selected_chapter_index == 0,
            r.libraries@.len() == 0,
            r.library_items@.len() == 0,
            r.chapters@.len() == 0,
            r.current_chapter is None,
            r.current_item is None,
            r.current_item_id is None,
            r.focus == Focus::Libraries,
            r.info_scroll == 0,
            r.player_state == PlayerState::Stopped,
            r.current_position_ms == 0,
            r.total_duration_ms == 0,
            r.current_track_info is None,
            r.current_tracks@.len() == 0,
            r.auto_resume_pending,
            r.error_message is None,
            !r.should_quit,
            r.layout_regions.library_list is None,
            r.layout_regions.chapters is None,
    {
        Orchestrator {
            selected_library_index: 0,
            selected_library_item_index: 0,
            selected_chapter_index: 0,
            libraries: Vec::new(),
            library_items: Vec::new(),
            chapters: Vec::new(),
            current_chapter: None,
            current_item: None,
            current_item_id: None,
            focus: Focus::Libraries,
            info_scroll: 0,
            player_state: PlayerState::Stopped,
            current_position_ms: 0,
            total_duration_ms: 0,
            current_track_info: None,
            current_tracks: Vec::new(),
            auto_resume_pending: true,
            error_message: None,
            should_quit: false,
            layout_regions: LayoutRegions {
                library_list: None,
                chapters: None,
                controls: None,
                progress_bar: None,
                info_panel: None,
            },
        }
    }

    /// The loaded libraries arrived: select the first one and ask for its
    /// items, and for the continue-listening shelf if the one-time
    /// auto-resume is still pending.
    pub fn on_libraries_loaded(&mut self, libraries: Vec<Library>) -> (acts: Vec<
        OrchestratorAction,
    >)
        ensures
            *final(self) == (Orchestrator {
                libraries,
                selected_library_index: 0,
                ..*old(self)
            }),
            libraries@.len() == 0 ==> acts@.len() == 0,
            libraries@.len() > 0 && old(self).auto_resume_pending ==> acts@.len() == 2,
            libraries@.len() > 0 && !old(self).auto_resume_pending ==> acts@.len() == 1,
            libraries@.len() > 0 ==> (acts@[0] matches OrchestratorAction::FetchLibraryItems {
                library_id,
            } && library_id@ == libraries@[0].id@),
            libraries@.len() > 0 && old(self).auto_resume_pending ==> (acts@[1]
                matches OrchestratorAction::FetchContinueListening { library_id } && library_id@
                == libraries@[0].id@),
    {
        self.libraries = libraries;
        self.selected_library_index = 0;
        let mut acts: Vec<OrchestratorAction> = Vec::new();
        if self.libraries.len() > 0 {
            let id = self.libraries[0].id.clone();
            acts.push(OrchestratorAction::FetchLibraryItems { library_id: id });
            if self.auto_resume_pending {
                let id2 = self.libraries[0].id.clone();
                acts.push(OrchestratorAction::FetchContinueListening { library_id: id2 });
            }
        }
        proof {
            assert(*self =~= (Orchestrator {
                libraries: self.libraries,
                selected_library_index: 0,
                ..*old(self)
            }));
        }
        acts
    }

    /// A library's items arrived: show them from the top and drop the
    /// chapters of the previously shown book.
    pub fn on_items_loaded(&mut self, items: Vec<LibraryItemInfo>)
        ensures
            *final(self) == (Orchestrator {
                library_items: items,
                selected_library_item_index: 0,
                chapters: final(self).chapters,
                ..*old(self)
            }),
            final(self).chapters@.len() == 0,
    {
        self.library_items = items;
        self.selected_library_item_index = 0;
        self.chapters = Vec::new();
        proof {
            assert(*self =~= (Orchestrator {
                library_items: self.library_items,
                selected_library_item_index: 0,
                chapters: self.chapters,
                ..*old(self)
            }));
        }
    }

    /// A book's chapters arrived.
    pub fn on_chapters_loaded(&mut self, chapters: Vec<Chapter>)
        ensures
            *final(self) == (Orchestrator {
                chapters,
                selected_chapter_index: 0,
                ..*old(self)
            }),
    {
        self.chapters = chapters;
        self.selected_chapter_index = 0;
        proof {
            assert(*self =~= (Orchestrator {
                chapters: self.chapters,
                selected_chapter_index: 0,
                ..*old(self)
            }));
        }
    }

    /// A requested track finished downloading: remember which span of the
    /// global timeline it covers and start playing it at the local
    /// position.
    pub fn on_download_finished(
        &mut self,
        path: String,
        local_position_ms: u64,
        track_info: TrackInfo,
    ) -> (act: OrchestratorAction)
        ensures
            *final(self) == (Orchestrator {
                current_track_info: Some(track_info),
                ..*old(self)
            }),
            act matches OrchestratorAction::Player(PlaybackCommand::Play {
                source,
                start_position_ms,
            }) && source@ == path@ && start_position_ms == local_position_ms,
    {
        self.current_track_info = Some(track_info);
        proof {
            assert(*self =~= (Orchestrator {
                current_track_info: Some(track_info),
                ..*old(self)
            }));
        }
        OrchestratorAction::Player(
            PlaybackCommand::Play { source: path, start_position_ms: local_position_ms },
        )
    }

    /// An error from the media server: keep it for display.
    pub fn on_api_error(&mut self, error: String)
        ensures
            *final(self) == (Orchestrator { error_message: Some(error), ..*old(self) }),
    {
        self.error_message = Some(error);
        proof {
            assert(*self =~= (Orchestrator { error_message: self.error_message, ..*old(self) }));
        }
    }

    /// The player announced a state change.  The first change after
    /// startup triggers the one-time auto-resume pause; afterwards every
    /// transition out of active playback reports listening progress.
    pub fn on_player_state_changed(&mut self, state: PlayerState) -> (acts: Vec<
        OrchestratorAction,
    >)
        ensures
            *final(self) == (Orchestrator {
                player_state: state,
                auto_resume_pending: final(self).auto_resume_pending,
                ..*old(self)
            }),
            old(self).auto_resume_pending ==> !final(self).auto_resume_pending && acts@ == seq![
                OrchestratorAction::Player(PlaybackCommand::Pause),
            ],
            !old(self).auto_resume_pending ==> final(self).auto_resume_pending == old(self).auto_resume_pending && ({
                if spec_sync_transition(old(self).player_state, state) && old(self).current_item_id is Some {
                    &&& acts@.len() == 1
                    &&& (acts@[0] matches OrchestratorAction::SyncProgress {
                        item_id,
                        current_time_ms,
                        duration_ms,
                        is_finished,
                    } && item_id@ == old(self).current_item_id->Some_0@ && current_time_ms == old(self).current_position_ms && duration_ms == spec_total_duration(&*old(self))
                        && is_finished == spec_is_finished(
                        spec_total_duration(&*old(self)) as int,
                        old(self).current_position_ms as int,
                    ))
                } else {
                    acts@.len() == 0
                }
            }),
    {
        let previous = self.player_state;
        self.player_state = state;
        let mut acts: Vec<OrchestratorAction> = Vec::new();
        if self.auto_resume_pending {
            self.auto_resume_pending = false;
            acts.push(OrchestratorAction::Player(PlaybackCommand::Pause));
            proof {
                assert(*self =~= (Orchestrator {
                    player_state: state,
                    auto_resume_pending: false,
                    ..*old(self)
                }));
                assert(acts@ =~= seq![OrchestratorAction::Player(PlaybackCommand::Pause)]);
            }
            return acts;
        }
        let wants_sync = match (previous, state) {
            (PlayerState::Playing, PlayerState::Paused) => true,
            (PlayerState::Playing, PlayerState::Stopped) => true,
            (PlayerState::Paused, PlayerState::Stopped) => true,
            _ => false,
        };
        if wants_sync {
            if let Some(act) = self.sync_progress() {
                acts.push(act);
            }
        }
        proof {
            assert(*self =~= (Orchestrator {
                player_state: state,
                auto_resume_pending: old(self).auto_resume_pending,
                ..*old(self)
            }));
        }
        acts
    }

    /// Builds the progress report for the loaded book, if one is loaded.
    fn sync_progress(&self) -> (r: Option<OrchestratorAction>)
        ensures
            self.current_item_id is None ==> r is None,
            self.current_item_id is Some ==> (r matches Some(
                OrchestratorAction::SyncProgress {
                    item_id,
                    current_time_ms,
                    duration_ms,
                    is_finished,
                },
            ) && item_id@ == self.current_item_id->Some_0@ && current_time_ms
                == self.current_position_ms && duration_ms == spec_total_duration(self)
                && is_finished == spec_is_finished(
                spec_total_duration(self) as int,
                self.current_position_ms as int,
            )),
    {
        match &self.current_item_id {
            Some(item_id) => {
                let duration_ms = self.get_total_duration();
                let is_finished = duration_ms > 0 && sat_add_ms(
                    self.current_position_ms,
                    FINISH_SLACK_MS,
                ) >= duration_ms;
                Some(
                    OrchestratorAction::SyncProgress {
                        item_id: item_id.clone(),
                        current_time_ms: self.current_position_ms,
                        duration_ms,
                        is_finished,
                    },
                )
            },
            None => None,
        }
    }

    /// The total duration used for progress reports.
    fn get_total_duration(&self) -> (r: u64)
        ensures
            r == spec_total_duration(self),
    {
        match &self.current_item {
            Some(it) => match it.duration_ms {
                Some(d) => d,
                None => self.total_duration_ms,
            },
            None => self.total_duration_ms,
        }
    }

    /// The player announced its total duration.
    pub fn on_duration_changed(&mut self, duration_ms: u64)
        ensures
            *final(self) == (Orchestrator { total_duration_ms: duration_ms, ..*old(self) }),
    {
        self.total_duration_ms = duration_ms;
        proof {
            assert(*self =~= (Orchestrator { total_duration_ms: duration_ms, ..*old(self) }));
        }
    }

    /// The track ended; the boundary look-ahead has already requested the
    /// next one, so nothing is left to do here.
    pub fn on_track_ended(&mut self)
        ensures
            *final(self) == *old(self),
    {
    }

    /// The player reported an error: keep it for display and mirror the
    /// stopped state.
    pub fn on_player_error(&mut self, error: String)
        ensures
            *final(self) == (Orchestrator {
                error_message: Some(error),
                player_state: PlayerState::Stopped,
                ..*old(self)
            }),
    {
        self.error_message = Some(error);
        self.player_state = PlayerState::Stopped;
        proof {
            assert(*self =~= (Orchestrator {
                error_message: self.error_message,
                player_state: PlayerState::Stopped,
                ..*old(self)
            }));
        }
    }

    /// The player reported a track-local position.  The orchestrator
    /// converts it to the global timeline, re-resolves the current chapter
    /// (skipping the scan while the cached chapter still contains the
    /// position), and requests the next track's download once the position
    /// comes within the margin of the loaded track's end.
    pub fn on_position_update(&mut self, local_ms: u64) -> (acts: Vec<OrchestratorAction>)
        ensures
            *final(self) == (Orchestrator {
                current_position_ms: final(self).current_position_ms,
                current_chapter: final(self).current_chapter,
                selected_chapter_index: final(self).selected_chapter_index,
                ..*old(self)
            }),
            final(self).current_position_ms == ({
                let g = spec_global_of(old(self).current_track_info, local_ms as int);
                if g > u64::MAX as int {
                    u64::MAX as int
                } else {
                    g
                }
            }),
            spec_chapter_resolution(
                &*old(self),
                final(self).current_position_ms as int,
                final(self).current_chapter,
                final(self).selected_chapter_index as int,
            ),
            spec_boundary_acts(&*old(self), final(self).current_position_ms as int, acts@),
    {
        let global = match &self.current_track_info {
            Some(t) => sat_add_ms(t.start_offset_ms, local_ms),
            None => local_ms,
        };
        self.current_position_ms = global;
        self.update_current_chapter();
        let acts = self.check_track_boundary();
        proof {
            assert(*self =~= (Orchestrator {
                current_position_ms: self.current_position_ms,
                current_chapter: self.current_chapter,
                selected_chapter_index: self.selected_chapter_index,
                ..*old(self)
            }));
        }
        acts
    }

    /// Re-resolves the current chapter from the current position, with the
    /// sticky shortcut.
    fn update_current_chapter(&mut self)
        ensures
            *final(self) == (Orchestrator {
                current_chapter: final(self).current_chapter,
                selected_chapter_index: final(self).selected_chapter_index,
                ..*old(self)
            }),
            spec_chapter_resolution(
                &*old(self),
                old(self).current_position_ms as int,
                final(self).current_chapter,
                final(self).selected_chapter_index as int,
            ),
    {
        if self.current_item_id.is_none() {
            return ;
        }
        let pos = self.current_position_ms;
        if let Some(i) = self.current_chapter {
            if i < self.chapters.len() && self.chapters[i].contains(pos) {
                return ;
            }
        }
        match chapter_index_at(&self.chapters, pos) {
            Some(i) => {
                self.current_chapter = Some(i);
                self.selected_chapter_index = i;
                proof {
                    assert(*self =~= (Orchestrator {
                        current_chapter: Some(i),
                        selected_chapter_index: i,
                        ..*old(self)
                    }));
                }
            },
            None => {
                if self.chapters.len() > 0 {
                    let last = self.chapters.len() - 1;
                    if pos >= self.chapters[last].end_ms {
                        self.current_chapter = None;
                        proof {
                            assert(*self =~= (Orchestrator {
                                current_chapter: None,
                                selected_chapter_index: old(self).selected_chapter_index,
                                ..*old(self)
                            }));
                        }
                    }
                }
            },
        }
    }

    /// The track-boundary look-ahead: requests the download of the next
    /// track, starting just past the boundary, once the position comes
    /// within the margin of the loaded track's end.
    fn check_track_boundary(&self) -> (acts: Vec<OrchestratorAction>)
        ensures
            spec_boundary_acts(self, self.current_position_ms as int, acts@),
    {
        let mut acts: Vec<OrchestratorAction> = Vec::new();
        let info = match &self.current_track_info {
            Some(t) => *t,
            None => {
                return acts;
            },
        };
        let global = self.current_position_ms;
        let near_end = (global as u128) + (BOUNDARY_MARGIN_MS as u128) >= (
        info.start_offset_ms as u128) + (info.duration_ms as u128);
        if near_end {
            let n = self.current_tracks.len();
            let mut has_next = false;
            for j in 0..n
                invariant
                    n == self.current_tracks@.len(),
                    has_next == exists|k: int|
                        0 <= k < j && self.current_tracks@[k].index == info.index + 1,
            {
                if (self.current_tracks[j].index as i64) == (info.index as i64) + 1 {
                    has_next = true;
                }
            }
            if has_next {
                if let Some(it) = &self.current_item {
                    let handoff = self.handoff_target(&info);
                    acts.push(
                        OrchestratorAction::Download {
                            item_id: it.id.clone(),
                            position_ms: handoff,
                        },
                    );
                }
            }
        }
        acts
    }

    /// The global position at which the next track is started: just past
    /// the end of the given track.
    fn handoff_target(&self, info: &TrackInfo) -> (r: u64)
        ensures
            r == ({
                let h = spec_info_end(*info) + HANDOFF_SKIP_MS;
                if h > u64::MAX as int {
                    u64::MAX as int
                } else {
                    h
                }
            }),
    {
        sat_add_ms(sat_add_ms(info.start_offset_ms, info.duration_ms), HANDOFF_SKIP_MS)
    }

    /// Routes a seek on the global timeline: a local seek when the target
    /// lies in the loaded track's span, otherwise a stop and a download of
    /// the track that contains the target.
    pub fn seek_to_global_position(&self, global_ms: u64) -> (acts: Vec<OrchestratorAction>)
        ensures
            spec_seek_acts(self, global_ms as int, acts@),
    {
        let mut acts: Vec<OrchestratorAction> = Vec::new();
        match &self.current_track_info {
            Some(t) => {
                let within = global_ms >= t.start_offset_ms && (global_ms as u128) < (
                t.start_offset_ms as u128) + (t.duration_ms as u128);
                if within {
                    acts.push(
                        OrchestratorAction::Player(
                            PlaybackCommand::Seek(global_ms - t.start_offset_ms),
                        ),
                    );
                    proof {
                        assert(acts@ =~= seq![
                            OrchestratorAction::Player(
                                PlaybackCommand::Seek(
                                    (global_ms - t.start_offset_ms) as u64,
                                ),
                            ),
                        ]);
                    }
                } else {
                    if let Some(it) = &self.current_item {
                        acts.push(OrchestratorAction::Player(PlaybackCommand::Stop));
                        acts.push(
                            OrchestratorAction::Download {
                                item_id: it.id.clone(),
                                position_ms: global_ms,
                            },
                        );
                    }
                }
            },
            None => {
                acts.push(OrchestratorAction::Player(PlaybackCommand::Seek(global_ms)));
                proof {
                    assert(acts@ =~= seq![
                        OrchestratorAction::Player(PlaybackCommand::Seek(global_ms)),
                    ]);
                }
            },
        }
        acts
    }

    /// Seeks forward on the global timeline, clamped to the total
    /// duration.
    pub fn seek_forward(&self, delta_ms: u64) -> (acts: Vec<OrchestratorAction>)
        ensures
            spec_seek_acts(self, spec_clamped_forward_target(self, delta_ms as int), acts@),
    {
        let s = sat_add_ms(self.current_position_ms, delta_ms);
        let g = if s < self.total_duration_ms {
            s
        } else {
            self.total_duration_ms
        };
        self.seek_to_global_position(g)
    }

    /// Seeks backward on the global timeline, stopping at the start.
    pub fn seek_backward(&self, delta_ms: u64) -> (acts: Vec<OrchestratorAction>)
        ensures
            spec_seek_acts(
                self,
                if delta_ms as int <= self.current_position_ms as int {
                    self.current_position_ms - delta_ms
                } else {
                    0
                },
                acts@,
            ),
    {
        let g = if delta_ms <= self.current_position_ms {
            self.current_position_ms - delta_ms
        } else {
            0
        };
        self.seek_to_global_position(g)
    }

    /// The cache path of a downloaded item's audio.
    fn get_audio_file_path(&self, item_id: &String) -> (r: String)
        ensures
            r@ == spec_audio_cache_path(item_id@),
    {
        let mut p = String::from_str("/tmp/decibelle_");
        p.append(item_id.as_str());
        p.append(".audio");
        p
    }

    /// Starts playback of the selected chapter of the selected item, from
    /// the chapter's start.
    pub fn play_current_chapter(&mut self) -> (acts: Vec<OrchestratorAction>)
        ensures
            spec_can_play_selection(&*old(self)) ==> spec_play_selection_state(
                &*old(self),
                &*final(self),
            ) && acts@.len() == 1 && spec_play_selection_act(&*old(self), acts@[0]),
            !spec_can_play_selection(&*old(self)) ==> *final(self) == *old(self) && acts@.len()
                == 0,
    {
        let mut acts: Vec<OrchestratorAction> = Vec::new();
        if self.selected_chapter_index < self.chapters.len() && self.selected_library_item_index
            < self.library_items.len() {
            let chapter_start = self.chapters[self.selected_chapter_index].start_ms;
            let item_id = self.library_items[self.selected_library_item_index].id.clone();
            let path = self.get_audio_file_path(&item_id);
            self.current_chapter = Some(self.selected_chapter_index);
            self.current_item_id = Some(item_id);
            acts.push(
                OrchestratorAction::Player(
                    PlaybackCommand::Play { source: path, start_position_ms: chapter_start },
                ),
            );
            proof {
                assert(*self =~= (Orchestrator {
                    current_chapter: Some(old(self).selected_chapter_index),
                    current_item_id: self.current_item_id,
                    ..*old(self)
                }));
            }
        }
        acts
    }

    /// Space-bar behaviour: pause while playing, resume while paused,
    /// start the selected chapter while stopped, and do nothing while a
    /// source is still loading.
    pub fn toggle_playback(&mut self) -> (acts: Vec<OrchestratorAction>)
        ensures
            old(self).player_state is Playing ==> *final(self) == *old(self) && acts@ == seq![
                OrchestratorAction::Player(PlaybackCommand::Pause),
            ],
            old(self).player_state is Paused ==> *final(self) == *old(self) && acts@ == seq![
                OrchestratorAction::Player(PlaybackCommand::Resume),
            ],
            old(self).player_state is Loading ==> *final(self) == *old(self) && acts@.len() == 0,
            old(self).player_state is Stopped && spec_can_play_selection(&*old(self)) ==> (
            spec_play_selection_state(&*old(self), &*final(self)) && acts@.len() == 1
                && spec_play_selection_act(&*old(self), acts@[0])),
            old(self).player_state is Stopped && !spec_can_play_selection(&*old(self)) ==> (
            *final(self) == *old(self) && acts@.len() == 0),
    {
        match self.player_state {
            PlayerState::Playing => {
                let mut acts: Vec<OrchestratorAction> = Vec::new();
                acts.push(OrchestratorAction::Player(PlaybackCommand::Pause));
                proof {
                    assert(acts@ =~= seq![OrchestratorAction::Player(PlaybackCommand::Pause)]);
                }
                acts
            },
            PlayerState::Paused => {
                let mut acts: Vec<OrchestratorAction> = Vec::new();
                acts.push(OrchestratorAction::Player(PlaybackCommand::Resume));
                proof {
                    assert(acts@ =~= seq![OrchestratorAction::Player(PlaybackCommand::Resume)]);
                }
                acts
            },
            PlayerState::Stopped => self.play_current_chapter(),
            PlayerState::Loading => Vec::new(),
        }
    }

    /// Asks the player to stop.
    pub fn stop_playback(&self) -> (act: OrchestratorAction)
        ensures
            act == OrchestratorAction::Player(PlaybackCommand::Stop),
    {
        OrchestratorAction::Player(PlaybackCommand::Stop)
    }

    /// The continue-listening shelf produced an item: select it, load its
    /// chapters, and resume a little before the saved position.  Acted on
    /// only while the one-time auto-resume is pending.
    pub fn on_continue_listening_loaded(
        &mut self,
        item: LibraryItemInfo,
        position_ms: u64,
    ) -> (acts: Vec<OrchestratorAction>)
        ensures
            !old(self).auto_resume_pending ==> *final(self) == *old(self) && acts@.len() == 0,
            old(self).auto_resume_pending ==> ({
                &&& *final(self) == (Orchestrator {
                    selected_library_item_index: final(self).selected_library_item_index,
                    current_item: Some(item),
                    current_item_id: final(self).current_item_id,
                    current_tracks: final(self).current_tracks,
                    focus: Focus::Chapters,
                    ..*old(self)
                })
                &&& final(self).current_tracks@ == item.tracks@
                &&& (final(self).current_item_id matches Some(id) && id@ == item.id@)
                &&& ({
                    let items = old(self).library_items@;
                    if exists|j: int| 0 <= j < items.len() && items[j].id@ == item.id@ {
                        final(self).selected_library_item_index < items.len() && items[final(self).selected_library_item_index as int].id@ == item.id@ && (forall|k: int|
                            0 <= k < final(self).selected_library_item_index ==> items[k].id@
                                != item.id@)
                    } else {
                        final(self).selected_library_item_index == old(self).selected_library_item_index
                    }
                })
                &&& acts@.len() == 2
                &&& (acts@[0] matches OrchestratorAction::FetchChapters { item_id } && item_id@
                    == item.id@)
                &&& (acts@[1] matches OrchestratorAction::Download { item_id, position_ms: p }
                    && item_id@ == item.id@ && p == (if position_ms as int >= RESUME_REWIND_MS as int {
                    position_ms - RESUME_REWIND_MS
                } else {
                    0
                }))
            }),
    {
        let mut acts: Vec<OrchestratorAction> = Vec::new();
        if !self.auto_resume_pending {
            return acts;
        }
        let n = self.library_items.len();
        let mut found: Option<usize> = None;
        for j in 0..n
            invariant
                n == self.library_items@.len(),
                match found {
                    Some(i) => {
                        &&& i < j
                        &&& self.library_items@[i as int].id@ == item.id@
                        &&& forall|k: int| 0 <= k < i ==> self.library_items@[k].id@ != item.id@
                    },
                    None => forall|k: int|
                        0 <= k < j ==> self.library_items@[k].id@ != item.id@,
                },
        {
            if found.is_none() && self.library_items[j].id == item.id {
                found = Some(j);
            }
        }
        if let Some(i) = found {
            self.selected_library_item_index = i;
        }
        let id1 = item.id.clone();
        let id2 = item.id.clone();
        let id3 = item.id.clone();
        let tracks = item.tracks.clone();
        proof {
            assert forall|i: int| 0 <= i < item.tracks@.len() implies tracks@[i]
                == item.tracks@[i] by {
                assert(vstd::pervasive::cloned::<AudioTrack>(item.tracks[i], tracks[i]));
            }
            assert(tracks@ =~= item.tracks@);
        }
        self.current_item = Some(item);
        self.current_item_id = Some(id1);
        self.current_tracks = tracks;
        self.focus = Focus::Chapters;
        let resume = if position_ms >= RESUME_REWIND_MS {
            position_ms - RESUME_REWIND_MS
        } else {
            0
        };
        acts.push(OrchestratorAction::FetchChapters { item_id: id2 });
        acts.push(OrchestratorAction::Download { item_id: id3, position_ms: resume });
        proof {
            assert(*self =~= (Orchestrator {
                selected_library_item_index: self.selected_library_item_index,
                current_item: self.current_item,
                current_item_id: self.current_item_id,
                current_tracks: self.current_tracks,
                focus: Focus::Chapters,
                ..*old(self)
            }));
        }
        acts
    }

    /// Moves the focus to the next pane, or backward with `reverse`.
    pub fn cycle_focus(&mut self, reverse: bool)
        ensures
            *final(self) == (Orchestrator { focus: final(self).focus, ..*old(self) }),
            final(self).focus == (match (old(self).focus, reverse) {
                (Focus::Libraries, false) => Focus::Chapters,
                (Focus::Chapters, false) => Focus::InfoPanel,
                (Focus::InfoPanel, false) => Focus::Controls,
                (Focus::Controls, false) => Focus::Libraries,
                (Focus::Libraries, true) => Focus::Controls,
                (Focus::Chapters, true) => Focus::Libraries,
                (Focus::InfoPanel, true) => Focus::Chapters,
                (Focus::Controls, true) => Focus::InfoPanel,
            }),
    {
        self.focus = match (self.focus, reverse) {
            (Focus::Libraries, false) => Focus::Chapters,
            (Focus::Chapters, false) => Focus::InfoPanel,
            (Focus::InfoPanel, false) => Focus::Controls,
            (Focus::Controls, false) => Focus::Libraries,
            (Focus::Libraries, true) => Focus::Controls,
            (Focus::Chapters, true) => Focus::Libraries,
            (Focus::InfoPanel, true) => Focus::Chapters,
            (Focus::Controls, true) => Focus::InfoPanel,
        };
        proof {
            assert(*self =~= (Orchestrator { focus: self.focus, ..*old(self) }));
        }
    }

    /// Selects the next library, sticking at the last.
    pub fn next_library(&mut self)
        ensures
            *final(self) == (Orchestrator {
                selected_library_index: final(self).selected_library_index,
                ..*old(self)
            }),
            spec_step_forward(
                old(self).selected_library_index as int,
                old(self).libraries@.len() as int,
                final(self).selected_library_index as int,
            ),
    {
        self.selected_library_index = step_forward(
            self.selected_library_index,
            self.libraries.len(),
        );
        proof {
            assert(*self =~= (Orchestrator {
                selected_library_index: self.selected_library_index,
                ..*old(self)
            }));
        }
    }

    /// Selects the previous library, sticking at the first.
    pub fn previous_library(&mut self)
        ensures
            *final(self) == (Orchestrator {
                selected_library_index: final(self).selected_library_index,
                ..*old(self)
            }),
            spec_step_backward(
                old(self).selected_library_index as int,
                old(self).libraries@.len() as int,
                final(self).selected_library_index as int,
            ),
    {
        self.selected_library_index = step_backward(
            self.selected_library_index,
            self.libraries.len(),
        );
        proof {
            assert(*self =~= (Orchestrator {
                selected_library_index: self.selected_library_index,
                ..*old(self)
            }));
        }
    }

    /// Selects the next library item, sticking at the last.
    pub fn next_library_item(&mut self)
        ensures
            *final(self) == (Orchestrator {
                selected_library_item_index: final(self).selected_library_item_index,
                ..*old(self)
            }),
            spec_step_forward(
                old(self).selected_library_item_index as int,
                old(self).library_items@.len() as int,
                final(self).selected_library_item_index as int,
            ),
    {
        self.selected_library_item_index = step_forward(
            self.selected_library_item_index,
            self.library_items.len(),
        );
        proof {
            assert(*self =~= (Orchestrator {
                selected_library_item_index: self.selected_library_item_index,
                ..*old(self)
            }));
        }
    }

    /// Selects the previous library item, sticking at the first.
    pub fn previous_libaray_item(&mut self)
        ensures
            *final(self) == (Orchestrator {
                selected_library_item_index: final(self).selected_library_item_index,
                ..*old(self)
            }),
            spec_step_backward(
                old(self).selected_library_item_index as int,
                old(self).library_items@.len() as int,
                final(self).selected_library_item_index as int,
            ),
    {
        self.selected_library_item_index = step_backward(
            self.selected_library_item_index,
            self.library_items.len(),
        );
        proof {
            assert(*self =~= (Orchestrator {
                selected_library_item_index: self.selected_library_item_index,
                ..*old(self)
            }));
        }
    }

    /// Selects the next chapter, sticking at the last.
    pub fn next_chapter(&mut self)
        ensures
            *final(self) == (Orchestrator {
                selected_chapter_index: final(self).selected_chapter_index,
                ..*old(self)
            }),
            spec_step_forward(
                old(self).selected_chapter_index as int,
                old(self).chapters@.len() as int,
                final(self).selected_chapter_index as int,
            ),
    {
        self.selected_chapter_index = step_forward(
            self.selected_chapter_index,
            self.chapters.len(),
        );
        proof {
            assert(*self =~= (Orchestrator {
                selected_chapter_index: self.selected_chapter_index,
                ..*old(self)
            }));
        }
    }

    /// Selects the previous chapter, sticking at the first.
    pub fn previous_chapter(&mut self)
        ensures
            *final(self) == (Orchestrator {
                selected_chapter_index: final(self).selected_chapter_index,
                ..*old(self)
            }),
            spec_step_backward(
                old(self).selected_chapter_index as int,
                old(self).chapters@.len() as int,
                final(self).selected_chapter_index as int,
            ),
    {
        self.selected_chapter_index = step_backward(
            self.selected_chapter_index,
            self.chapters.len(),
        );
        proof {
            assert(*self =~= (Orchestrator {
                selected_chapter_index: self.selected_chapter_index,
                ..*old(self)
            }));
        }
    }

    /// Scrolls the info panel up one line.
    pub fn scroll_info_up(&mut self)
        ensures
            *final(self) == (Orchestrator { info_scroll: final(self).info_scroll, ..*old(self) }),
            final(self).info_scroll == (if old(self).info_scroll > 0 {
                old(self).info_scroll - 1
            } else {
                0int
            }),
    {
        if self.info_scroll > 0 {
            self.info_scroll = self.info_scroll - 1;
        }
        proof {
            assert(*self =~= (Orchestrator { info_scroll: self.info_scroll, ..*old(self) }));
        }
    }

    /// Scrolls the info panel down one line, up to `max_scroll`.
    pub fn scroll_info_down(&mut self, max_scroll: u16)
        ensures
            *final(self) == (Orchestrator { info_scroll: final(self).info_scroll, ..*old(self) }),
            final(self).info_scroll == (if old(self).info_scroll < max_scroll {
                old(self).info_scroll + 1
            } else {
                old(self).info_scroll as int
            }),
    {
        if self.info_scroll < max_scroll {
            self.info_scroll = self.info_scroll + 1;
        }
        proof {
            assert(*self =~= (Orchestrator { info_scroll: self.info_scroll, ..*old(self) }));
        }
    }
}

/// How a selection moves one step toward the end of a list of `len`
/// entries without wrapping: it sticks at the last entry, and an index
/// already outside the list is clamped back onto it.
pub open spec fn spec_step_forward(x: int, len: int, r: int) -> bool {
    if len == 0 {
        r == x
    } else if x + 1 < len {
        r == x + 1
    } else {
        r == len - 1
    }
}

/// How a selection moves one step toward the start of a list without
/// wrapping: it sticks at the first entry.
pub open spec fn spec_step_backward(x: int, len: int, r: int) -> bool {
    if len == 0 {
        r == x
    } else if x == 0 {
        r == 0
    } else if x < len {
        r == x - 1
    } else {
        r == len - 1
    }
}

/// Moves a selection one entry forward, sticking at the end of the list.
fn step_forward(x: usize, len: usize) -> (r: usize)
    ensures
        spec_step_forward(x as int, len as int, r as int),
{
    if len == 0 {
        x
    } else if x < len {
        crate::nav::increment(x, len, false)
    } else {
        len - 1
    }
}

/// Moves a selection one entry backward, sticking at the start of the
/// list.
fn step_backward(x: usize, len: usize) -> (r: usize)
    ensures
        spec_step_backward(x as int, len as int, r as int),
{
    if len == 0 {
        x
    } else if x < len {
        crate::nav::decrement(x, len, false)
    } else {
        len - 1
    }
}

/// The reported global position never jumps backward across a track
/// handoff.  While a track plays, every position within its span (plus
/// the skip past the boundary) maps to a global position at or below the
/// handoff target; the next track starts at that target or later, so its
/// first reported global position is at or above every one reported
/// before the handoff.
pub proof fn lemma_handoff_monotonic(
    info: TrackInfo,
    local_ms: int,
    next: TrackInfo,
    next_local_ms: int,
)
    requires
        0 <= local_ms <= info.duration_ms + HANDOFF_SKIP_MS,
        spec_info_end(info) + HANDOFF_SKIP_MS - next.start_offset_ms <= next_local_ms,
    ensures
        spec_global_of(Some(info), local_ms) <= spec_global_of(Some(next), next_local_ms),
{
}

} // verus!
