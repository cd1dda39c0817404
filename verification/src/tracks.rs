//! Audio tracks: the independently downloadable files that together cover
//! a book's global timeline, and the choice of which track serves a given
//! global position.

use crate::api_models::FileMetadata;
use vstd::prelude::*;

verus! {

/// One audio track of a book, spanning
/// `[start_offset_ms, start_offset_ms + duration_ms)` of the global
/// timeline.
#[derive(Debug)]
pub struct AudioTrack {
    pub index: i32,
    pub start_offset_ms: u64,
    pub duration_ms: u64,
    pub title: String,
    pub content_url: String,
    pub mime_type: String,
    pub metadata: Option<FileMetadata>,
}

impl Clone for AudioTrack {
    fn clone(&self) -> (r: AudioTrack)
        ensures
            r == *self,
    {
        AudioTrack {
            index: self.index,
            start_offset_ms: self.start_offset_ms,
            duration_ms: self.duration_ms,
            title: self.title.clone(),
            content_url: self.content_url.clone(),
            mime_type: self.mime_type.clone(),
            metadata: match &self.metadata {
                Some(m) => Some(m.clone()),
                None => None,
            },
        }
    }
}

/// End of a track's span on the global timeline, as an unbounded integer.
pub open spec fn spec_end_offset(t: &AudioTrack) -> int {
    t.start_offset_ms + t.duration_ms
}

/// Whether a global position falls inside a track's half-open span.
pub open spec fn spec_track_contains(t: &AudioTrack, position_ms: int) -> bool {
    t.start_offset_ms <= position_ms < spec_end_offset(t)
}

impl AudioTrack {
    /// End of this track's span, saturating at the largest representable
    /// millisecond count.
    pub fn end_offset(&self) -> (r: u64)
        ensures
            r == if spec_end_offset(self) > u64::MAX as int {
                u64::MAX as int
            } else {
                spec_end_offset(self)
            },
    {
        if self.start_offset_ms <= u64::MAX - self.duration_ms {
            self.start_offset_ms + self.duration_ms
        } else {
            u64::MAX
        }
    }

    /// Whether a global position falls inside this track's span.
    pub fn contains_timestamp(&self, timestamp_ms: u64) -> (r: bool)
        ensures
            r == spec_track_contains(self, timestamp_ms as int),
    {
        timestamp_ms >= self.start_offset_ms && timestamp_ms - self.start_offset_ms
            < self.duration_ms
    }
}

/// Index of the first track whose span contains `position_ms`, if any.
pub fn find_track_for_position(tracks: &Vec<AudioTrack>, position_ms: u64) -> (r: Option<usize>)
    ensures
        match r {
            Some(i) => {
                &&& i < tracks@.len()
                &&& spec_track_contains(&tracks@[i as int], position_ms as int)
                &&& forall|j: int|
                    0 <= j < i ==> !spec_track_contains(&tracks@[j], position_ms as int)
            },
            None => forall|j: int|
                0 <= j < tracks@.len() ==> !spec_track_contains(&tracks@[j], position_ms as int),
        },
{
    let n = tracks.len();
    for i in 0..n
        invariant
            n == tracks@.len(),
            forall|j: int| 0 <= j < i ==> !spec_track_contains(&tracks@[j], position_ms as int),
    {
        if tracks[i].contains_timestamp(position_ms) {
            return Some(i);
        }
    }
    None
}

/// Track metadata the orchestrator keeps about what is currently loaded
/// in the player: which track it is and which span of the global timeline
/// it covers.  For single-file books the sentinel value of
/// [`TrackInfo::single_file`] stands for "the whole book is one track" and
/// disables track-boundary handling.
#[derive(Debug, Clone, Copy, PartialEq, Eq, Structural)]
pub struct TrackInfo {
    pub index: i32,
    pub start_offset_ms: u64,
    pub duration_ms: u64,
}

impl TrackInfo {
    /// The sentinel for a single-file book.
    pub fn single_file() -> (r: TrackInfo)
        ensures
            r.index == 0,
            r.start_offset_ms == 0,
            r.duration_ms == 0,
    {
        TrackInfo { index: 0, start_offset_ms: 0, duration_ms: 0 }
    }
}

/// How a request to play a book at a global position is served: by one of
/// its tracks, or by the whole file when the book has no track list.
#[derive(Debug, Clone, PartialEq)]
pub enum DownloadPlan {
    Track { track_index: usize, local_position_ms: u64, info: TrackInfo },
    WholeFile { local_position_ms: u64, info: TrackInfo },
}

/// Chooses the track that serves `position_ms`: the first track containing
/// it, or the first track of the book when none does, with the local
/// position clamped into the chosen track.  A book without tracks is
/// served as a whole file at the requested position.
pub fn plan_playback(tracks: &Vec<AudioTrack>, position_ms: u64) -> (r: DownloadPlan)
    ensures
        tracks@.len() == 0 ==> r == (DownloadPlan::WholeFile {
            local_position_ms: position_ms,
            info: TrackInfo { index: 0, start_offset_ms: 0, duration_ms: 0 },
        }),
        tracks@.len() > 0 ==> (r matches DownloadPlan::Track {
            track_index,
            local_position_ms,
            info,
        } && {
            let t = &tracks@[track_index as int];
            &&& track_index < tracks@.len()
            &&& (spec_track_contains(t, position_ms as int) || (track_index == 0 && forall|j: int|
                0 <= j < tracks@.len() ==> !spec_track_contains(
                    &tracks@[j],
                    position_ms as int,
                )))
            &&& local_position_ms == if position_ms >= t.start_offset_ms {
                position_ms - t.start_offset_ms
            } else {
                0
            }
            &&& info.index == t.index
            &&& info.start_offset_ms == t.start_offset_ms
            &&& info.duration_ms == t.duration_ms
        }),
{
    if tracks.len() == 0 {
        return DownloadPlan::WholeFile {
            local_position_ms: position_ms,
            info: TrackInfo::single_file(),
        };
    }
    let track_index = match find_track_for_position(tracks, position_ms) {
        Some(i) => i,
        None => 0,
    };
    let t = &tracks[track_index];
    let local_position_ms = if position_ms >= t.start_offset_ms {
        position_ms - t.start_offset_ms
    } else {
        0
    };
    DownloadPlan::Track {
        track_index,
        local_position_ms,
        info: TrackInfo {
            index: t.index,
            start_offset_ms: t.start_offset_ms,
            duration_ms: t.duration_ms,
        },
    }
}

} // verus!
