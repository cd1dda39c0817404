//! Data model of the media server's API, held as plain values.
//!
//! Time spans arrive from the server as seconds; the library stores them
//! as integer milliseconds.  The layer that talks to the server converts
//! at the boundary.

use vstd::prelude::*;

verus! {

#[derive(Debug, Clone)]
pub struct Library {
    pub id: String,
    pub name: String,
    pub media_type: String,
    pub display_order: Option<i32>,
    pub icon: Option<String>,
    pub provider: Option<String>,
    pub folders: Option<Vec<Folder>>,
    pub settings: Option<LibrarySettings>,
    pub created_at: Option<i64>,
    pub last_update: Option<i64>,
}

#[derive(Debug, Clone)]
pub struct LibrarySettings {
    pub cover_aspect_ratio: Option<i32>,
    pub disable_watcher: Option<bool>,
    pub skip_matching_media_with_asin: Option<bool>,
    pub skip_matching_media_with_isbn: Option<bool>,
    pub auto_scan_cron_expression: Option<String>,
}

#[derive(Debug, Clone)]
pub struct Folder {
    pub id: String,
    pub full_path: String,
    pub library_id: Option<String>,
    pub added_at: Option<i64>,
}

#[derive(Debug)]
pub struct LibrariesResponse {
    pub libraries: Vec<Library>,
}

#[derive(Debug, Clone)]
pub struct MediaMetadata {
    pub title: Option<String>,
    pub title_ignore_prefix: Option<String>,
    pub subtitle: Option<String>,
    pub authors: Option<Vec<Author>>,
    pub narrators: Option<Vec<String>>,
    pub series: Option<Vec<SeriesSequence>>,
    pub genres: Option<Vec<String>>,
    pub published_year: Option<String>,
    pub published_date: Option<String>,
    pub publisher: Option<String>,
    pub description: Option<String>,
    pub isbn: Option<String>,
    pub asin: Option<String>,
    pub language: Option<String>,
    pub explicit: Option<bool>,
    pub abridged: Option<bool>,
    pub author_name: Option<String>,
    pub author_name_lf: Option<String>,
    pub narrator_name: Option<String>,
    pub series_name: Option<String>,
}

#[derive(Debug, Clone)]
pub struct Author {
    pub id: String,
    pub name: String,
}

#[derive(Debug, Clone)]
pub struct SeriesSequence {
    pub id: String,
    pub name: String,
    pub sequence: Option<String>,
}

/// A chapter of the book, in book-global milliseconds.
#[derive(Debug, Clone)]
pub struct Chapter {
    pub id: i32,
    pub start_ms: u64,
    pub end_ms: u64,
    pub title: String,
}

impl Chapter {
    /// Whether `position_ms` lies inside this chapter's span.
    pub fn contains(&self, position_ms: u64) -> (r: bool)
        ensures
            r == spec_chapter_contains(self, position_ms as int),
    {
        position_ms >= self.start_ms && position_ms < self.end_ms
    }
}

/// Whether a position lies inside a chapter's half-open span.
pub open spec fn spec_chapter_contains(c: &Chapter, position_ms: int) -> bool {
    c.start_ms <= position_ms < c.end_ms
}

#[derive(Debug)]
pub struct FileMetadata {
    pub filename: String,
    pub ext: String,
    pub path: String,
    pub rel_path: String,
    pub size: i64,
    pub mtime_ms: Option<i64>,
    pub ctime_ms: Option<i64>,
    pub birthtime_ms: Option<i64>,
}

impl Clone for FileMetadata {
    fn clone(&self) -> (r: FileMetadata)
        ensures
            r == *self,
    {
        FileMetadata {
            filename: self.filename.clone(),
            ext: self.ext.clone(),
            path: self.path.clone(),
            rel_path: self.rel_path.clone(),
            size: self.size,
            mtime_ms: self.mtime_ms,
            ctime_ms: self.ctime_ms,
            birthtime_ms: self.birthtime_ms,
        }
    }
}

#[derive(Debug, Clone)]
pub struct LibraryFile {
    pub metadata: FileMetadata,
    pub added_at: Option<i64>,
    pub updated_at: Option<i64>,
    pub file_type: String,
}

#[derive(Debug, Clone)]
pub struct EBookFile {
    pub metadata: FileMetadata,
    pub ebook_format: String,
    pub added_at: Option<i64>,
    pub updated_at: Option<i64>,
}

#[derive(Debug, Clone)]
pub struct AudioMetaTags {
    pub tag_album: Option<String>,
    pub tag_artist: Option<String>,
    pub tag_genre: Option<String>,
    pub tag_title: Option<String>,
    pub tag_track: Option<String>,
    pub tag_album_artist: Option<String>,
    pub tag_composer: Option<String>,
}

/// What the orchestrator keeps of a library item: its id, its media
/// duration when known, and its audio tracks.
#[derive(Debug, Clone)]
pub struct LibraryItemInfo {
    pub id: String,
    pub duration_ms: Option<u64>,
    pub tracks: Vec<crate::tracks::AudioTrack>,
}

} // verus!
