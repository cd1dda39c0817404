//! The mirrored state of the simple single-file player: position,
//! duration, chapters, and the decisions taken on every clock tick.

use vstd::prelude::*;

verus! {

/// How far the position advances on one update tick, in milliseconds.
pub const POSITION_TICK_MS: u64 = 100;

/// An embedded chapter of a single audio file.
#[derive(Debug, Clone)]
pub struct Chapter {
    pub title: String,
    pub start_ms: u64,
    pub end_ms: u64,
}

/// Whether a position lies inside a chapter's half-open span.
pub open spec fn spec_in_chapter(c: &Chapter, pos: int) -> bool {
    c.start_ms <= pos < c.end_ms
}

/// The player's mirrored state.
#[derive(Debug)]
pub struct PlaybackState {
    pub is_playing: bool,
    pub current_position_ms: u64,
    pub total_duration_ms: u64,
    /// Volume in percent of full scale.
    pub volume_percent: u8,
    /// Playback speed in percent of real time.
    pub speed_percent: u16,
    pub current_file: Option<String>,
    pub chapters: Vec<Chapter>,
    pub current_chapter: Option<usize>,
}

impl Default for PlaybackState {
    /// Nothing loaded, stopped at the start, full volume, real-time
    /// speed.
    fn default() -> (r: PlaybackState)
        ensures
            !r.is_playing,
            r.current_position_ms == 0,
            r.total_duration_ms == 0,
            r.volume_percent == 100,
            r.speed_percent == 100,
            r.current_file is None,
            r.chapters@.len() == 0,
            r.current_chapter is None,
    {
        PlaybackState {
            is_playing: false,
            current_position_ms: 0,
            total_duration_ms: 0,
            volume_percent: 100,
            speed_percent: 100,
            current_file: None,
            chapters: Vec::new(),
            current_chapter: None,
        }
    }
}

impl PlaybackState {
    /// One position tick while playing: the position advances by the
    /// tick, is clamped at the total duration (stopping playback there),
    /// and the current chapter is re-resolved to the first one containing
    /// the position.  While not playing nothing changes.
    pub fn update_position(&mut self)
        ensures
            !old(self).is_playing ==> *final(self) == *old(self),
            old(self).is_playing ==> ({
                let advanced = old(self).current_position_ms + POSITION_TICK_MS;
                let clamped = if advanced >= old(self).total_duration_ms {
                    old(self).total_duration_ms as int
                } else {
                    advanced
                };
                &&& final(self).current_position_ms == clamped
                &&& final(self).is_playing == (advanced < old(self).total_duration_ms)
                &&& final(self).total_duration_ms == old(self).total_duration_ms
                &&& final(self).volume_percent == old(self).volume_percent
                &&& final(self).speed_percent == old(self).speed_percent
                &&& final(self).current_file == old(self).current_file
                &&& final(self).chapters == old(self).chapters
                &&& (if exists|k: int|
                    0 <= k < old(self).chapters@.len() && spec_in_chapter(
                        &old(self).chapters@[k],
                        clamped,
                    ) {
                    final(self).current_chapter matches Some(i) && i < old(self).chapters@.len()
                        && spec_in_chapter(&old(self).chapters@[i as int], clamped) && (forall|
                        k: int|
                        0 <= k < i ==> !spec_in_chapter(&old(self).chapters@[k], clamped))
                } else {
                    final(self).current_chapter == old(self).current_chapter
                })
            }),
    {
        if !self.is_playing {
            return ;
        }
        let advanced = if self.current_position_ms <= u64::MAX - POSITION_TICK_MS {
            self.current_position_ms + POSITION_TICK_MS
        } else {
            u64::MAX
        };
        if advanced >= self.total_duration_ms {
            self.current_position_ms = self.total_duration_ms;
            self.is_playing = false;
        } else {
            self.current_position_ms = advanced;
        }
        if self.chapters.len() > 0 {
            let pos = self.current_position_ms;
            let n = self.chapters.len();
            let mut idx: Option<usize> = None;
            for i in 0..n
                invariant
                    n == self.chapters@.len(),
                    match idx {
                        Some(j) => {
                            &&& j < n
                            &&& spec_in_chapter(&self.chapters@[j as int], pos as int)
                            &&& forall|k: int|
                                0 <= k < j ==> !spec_in_chapter(&self.chapters@[k], pos as int)
                        },
                        None => forall|k: int|
                            0 <= k < i ==> !spec_in_chapter(&self.chapters@[k], pos as int),
                    },
            {
                if idx.is_none() && pos >= self.chapters[i].start_ms && pos
                    < self.chapters[i].end_ms {
                    idx = Some(i);
                }
            }
            if let Some(i) = idx {
                self.current_chapter = Some(i);
            }
        }
    }

    /// Whether playback of the current chapter, or of the whole file, is
    /// finished: past the end of the current chapter when chapters are
    /// embedded, else whenever the device-side sink has run dry.
    pub fn is_finished(&self, sink_empty: bool) -> (r: bool)
        ensures
            r == ({
                if self.chapters@.len() > 0 && (self.current_chapter matches Some(i) && i
                    < self.chapters@.len() && self.current_position_ms
                    >= self.chapters@[i as int].end_ms) {
                    true
                } else {
                    sink_empty
                }
            }),
    {
        if self.chapters.len() > 0 {
            if let Some(i) = self.current_chapter {
                if i < self.chapters.len() && self.current_position_ms >= self.chapters[i].end_ms {
                    return true;
                }
            }
        }
        sink_empty
    }
}

} // verus!
