//! A locally scanned audiobook.

use vstd::prelude::*;

verus! {

/// One audiobook found on disk: its metadata, its chapter names and the
/// directory it lives in.
#[derive(Debug, Clone)]
pub struct Book {
    pub title: String,
    pub author: String,
    pub description: String,
    pub chapters: Vec<String>,
    pub cover_path: Option<String>,
    pub path: String,
}

impl Book {
    /// A book with the given title, author and path, and nothing else
    /// known yet.
    pub fn new(title: String, author: String, path: String) -> (r: Book)
        ensures
            r.title == title,
            r.author == author,
            r.description@.len() == 0,
            r.chapters@.len() == 0,
            r.cover_path is None,
            r.path == path,
    {
        Book {
            title,
            author,
            description: String::new(),
            chapters: Vec::new(),
            cover_path: None,
            path,
        }
    }

    /// Number of chapters.
    pub fn chapter_count(&self) -> (r: usize)
        ensures
            r == self.chapters@.len(),
    {
        self.chapters.len()
    }

    /// Whether any chapters are known.
    pub fn has_chapters(&self) -> (r: bool)
        ensures
            r == (self.chapters@.len() > 0),
    {
        self.chapters.len() > 0
    }
}

} // verus!
