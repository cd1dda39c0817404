//! Decisions of the audiobook directory scanner: which directory a file
//! belongs to, how files are ordered naturally, and how a book's title
//! and chapter names are derived.  The walk over the file system itself
//! happens outside the library and hands paths in as plain strings.

use crate::book::Book;
use crate::text::{
    parse_u64, spec_dec_value, spec_is_digit_char, spec_zero_padded, zero_pad_u64,
};
use vstd::prelude::*;
use vstd::string::*;

verus! {

/// Index of the last occurrence of `c`, scanning from the end.
pub open spec fn spec_last_index_of(s: Seq<char>, c: char) -> Option<int>
    decreases s.len(),
{
    if s.len() == 0 {
        None
    } else if s.last() == c {
        Some(s.len() - 1)
    } else {
        spec_last_index_of(s.drop_last(), c)
    }
}

/// What `spec_last_index_of` finds: the last occurrence, or nothing when
/// the character does not occur.
pub proof fn lemma_last_index_of_props(s: Seq<char>, c: char)
    ensures
        match spec_last_index_of(s, c) {
            Some(k) => 0 <= k < s.len() && s[k] == c && (forall|m: int|
                k < m < s.len() ==> s[m] != c),
            None => forall|m: int| 0 <= m < s.len() ==> s[m] != c,
        },
    decreases s.len(),
{
    if s.len() > 0 && s.last() != c {
        lemma_last_index_of_props(s.drop_last(), c);
        assert(forall|m: int| 0 <= m < s.len() - 1 ==> s[m] == s.drop_last()[m]);
    }
}

/// The part of a path after its last separator.
pub open spec fn spec_file_name(s: Seq<char>) -> Seq<char> {
    match spec_last_index_of(s, '/') {
        Some(k) => s.skip(k + 1),
        None => s,
    }
}

/// The part of a path before its last separator; empty when there is
/// none.
pub open spec fn spec_parent_dir(s: Seq<char>) -> Seq<char> {
    match spec_last_index_of(s, '/') {
        Some(k) => s.take(k),
        None => Seq::empty(),
    }
}

/// A file name with its last extension removed; a name whose only dot is
/// leading keeps it.
pub open spec fn spec_file_stem(name: Seq<char>) -> Seq<char> {
    match spec_last_index_of(name, '.') {
        Some(k) => if k > 0 {
            name.take(k)
        } else {
            name
        },
        None => name,
    }
}

/// Length of the maximal digit prefix.
pub open spec fn spec_digit_prefix_len(s: Seq<char>) -> int
    decreases s.len(),
{
    if s.len() == 0 || !spec_is_digit_char(s[0]) {
        0
    } else {
        1 + spec_digit_prefix_len(s.drop_first())
    }
}

/// The value of a run of digits, or zero when it does not fit in a
/// `u64`.
pub open spec fn spec_run_value(run: Seq<char>) -> nat {
    if spec_dec_value(run) <= u64::MAX as nat {
        spec_dec_value(run)
    } else {
        0
    }
}

/// The natural sort key of a name: every maximal run of digits is
/// replaced by its value zero-padded to ten digits, so that `2` orders
/// before `10`; other characters are kept as they are.
pub open spec fn spec_natural_key(s: Seq<char>) -> Seq<char>
    decreases s.len(),
    via spec_natural_key_decreases
{
    if s.len() == 0 {
        Seq::empty()
    } else if !spec_is_digit_char(s[0]) {
        seq![s[0]] + spec_natural_key(s.drop_first())
    } else {
        let k = spec_digit_prefix_len(s);
        spec_zero_padded(spec_run_value(s.take(k)), 10) + spec_natural_key(s.skip(k))
    }
}

#[via_fn]
proof fn spec_natural_key_decreases(s: Seq<char>) {
    lemma_digit_prefix_len_bounds(s);
}

/// The digit prefix is never longer than the string and is positive
/// exactly when the string starts with a digit.
proof fn lemma_digit_prefix_len_bounds(s: Seq<char>)
    ensures
        0 <= spec_digit_prefix_len(s) <= s.len(),
        s.len() > 0 && spec_is_digit_char(s[0]) ==> spec_digit_prefix_len(s) >= 1,
        forall|m: int| 0 <= m < spec_digit_prefix_len(s) ==> spec_is_digit_char(s[m]),
        spec_digit_prefix_len(s) < s.len() ==> !spec_is_digit_char(s[spec_digit_prefix_len(s)]),
    decreases s.len(),
{
    if s.len() > 0 && spec_is_digit_char(s[0]) {
        lemma_digit_prefix_len_bounds(s.drop_first());
        assert(forall|m: int| 1 <= m < s.len() ==> s[m] == s.drop_first()[m - 1]);
    }
}

/// A scan that stops at the first non-digit has found the digit prefix.
proof fn lemma_digit_prefix_len_is(s: Seq<char>, k: int)
    requires
        0 <= k <= s.len(),
        forall|m: int| 0 <= m < k ==> spec_is_digit_char(s[m]),
        k < s.len() ==> !spec_is_digit_char(s[k]),
    ensures
        spec_digit_prefix_len(s) == k,
    decreases k,
{
    if k > 0 {
        lemma_digit_prefix_len_is(s.drop_first(), k - 1);
    }
}

/// Whether a character is a decimal digit.
fn is_digit_char(c: char) -> (r: bool)
    ensures
        r == spec_is_digit_char(c),
{
    c == '0' || c == '1' || c == '2' || c == '3' || c == '4' || c == '5' || c == '6' || c == '7'
        || c == '8' || c == '9'
}

/// Index just past the last occurrence of `c`, or nothing.
fn last_index_of(s: &str, c: char) -> (r: Option<usize>)
    ensures
        match r {
            Some(k) => Some(k as int) == spec_last_index_of(s@, c),
            None => spec_last_index_of(s@, c) is None,
        },
{
    let n = s.unicode_len();
    let mut found: Option<usize> = None;
    let mut i: usize = 0;
    while i < n
        invariant
            n == s@.len(),
            0 <= i <= n,
            match found {
                Some(k) => k < i && s@[k as int] == c && (forall|m: int|
                    k < m < i ==> s@[m] != c),
                None => forall|m: int| 0 <= m < i ==> s@[m] != c,
            },
        decreases n - i,
    {
        if s.get_char(i) == c {
            found = Some(i);
        }
        i = i + 1;
    }
    proof {
        lemma_last_index_of_props(s@, c);
    }
    found
}

/// The local audiobook scanner: the directory it scans and the file
/// extensions it treats as audio.
pub struct AudiobookScanner {
    pub audiobook_dir: String,
    pub audio_extensions: Vec<String>,
}

impl AudiobookScanner {
    /// A scanner over the given directory, accepting the usual audio
    /// file extensions.
    pub fn new(audiobook_dir: String) -> (r: AudiobookScanner)
        ensures
            r.audiobook_dir == audiobook_dir,
            r.audio_extensions@.len() == 7,
            r.audio_extensions@[0]@ == "mp3"@,
            r.audio_extensions@[1]@ == "m4a"@,
            r.audio_extensions@[2]@ == "m4b"@,
            r.audio_extensions@[3]@ == "flac"@,
            r.audio_extensions@[4]@ == "ogg"@,
            r.audio_extensions@[5]@ == "wav"@,
            r.audio_extensions@[6]@ == "aac"@,
    {
        let mut audio_extensions: Vec<String> = Vec::new();
        audio_extensions.push(String::from_str("mp3"));
        audio_extensions.push(String::from_str("m4a"));
        audio_extensions.push(String::from_str("m4b"));
        audio_extensions.push(String::from_str("flac"));
        audio_extensions.push(String::from_str("ogg"));
        audio_extensions.push(String::from_str("wav"));
        audio_extensions.push(String::from_str("aac"));
        AudiobookScanner { audiobook_dir, audio_extensions }
    }

    /// Whether an already lower-cased file extension is one of the audio
    /// extensions.
    pub fn is_audio_extension(&self, ext: &str) -> (r: bool)
        ensures
            r == (exists|j: int|
                0 <= j < self.audio_extensions@.len() && self.audio_extensions@[j]@ == ext@),
    {
        let n = self.audio_extensions.len();
        for j in 0..n
            invariant
                n == self.audio_extensions@.len(),
                forall|m: int| 0 <= m < j ==> self.audio_extensions@[m]@ != ext@,
        {
            if str_eq(self.audio_extensions[j].as_str(), ext) {
                proof {
                    assert(self.audio_extensions@[j as int]@ == ext@);
                }
                return true;
            }
        }
        false
    }

    /// The directory a scanned audio file's book is grouped under: the
    /// file's parent directory.  Files lying directly in the scanned root
    /// are grouped under the root itself.
    pub fn determine_book_directory(&self, file_path: &str) -> (r: String)
        ensures
            r@ == spec_parent_dir(file_path@),
    {
        match last_index_of(file_path, '/') {
            Some(k) => {
                proof {
                    lemma_last_index_of_props(file_path@, '/');
                }
                let r = file_path.substring_char(0, k);
                r.to_owned()
            },
            None => String::new(),
        }
    }

    /// The natural sort key of a file name: runs of digits compare by
    /// value rather than character by character, so `chapter2` orders
    /// before `chapter10`.
    pub fn natural_sort_key(&self, name: &str) -> (r: String)
        ensures
            r@ == spec_natural_key(name@),
    {
        let n = name.unicode_len();
        let mut r = String::new();
        let mut i: usize = 0;
        proof {
            assert(name@.skip(0) =~= name@);
        }
        while i < n
            invariant
                n == name@.len(),
                0 <= i <= n,
                spec_natural_key(name@) == r@ + spec_natural_key(name@.skip(i as int)),
            decreases n - i,
        {
            let c = name.get_char(i);
            if is_digit_char(c) {
                let mut j: usize = i + 1;
                while j < n && is_digit_char(name.get_char(j))
                    invariant
                        n == name@.len(),
                        i < j <= n,
                        forall|m: int| i <= m < j ==> spec_is_digit_char(name@[m]),
                    decreases n - j,
                {
                    j = j + 1;
                }
                proof {
                    assert(forall|m: int| i <= m < j ==> spec_is_digit_char(name@[m]));
                    assert(j < n ==> !spec_is_digit_char(name@[j as int]));
                    let rest = name@.skip(i as int);
                    assert(forall|m: int|
                        0 <= m < j - i ==> rest[m] == name@[m + i] && spec_is_digit_char(rest[m]));
                    if j - i < rest.len() {
                        assert(rest[j - i] == name@[j as int]);
                    }
                    lemma_digit_prefix_len_is(rest, j - i);
                }
                let run = name.substring_char(i, j);
                let value = match parse_u64(run) {
                    Some(v) => v,
                    None => 0,
                };
                let padded = zero_pad_u64(value, 10);
                r.append(padded.as_str());
                proof {
                    let rest = name@.skip(i as int);
                    assert(rest.take(j - i) =~= name@.subrange(i as int, j as int));
                    assert(rest.skip(j - i) =~= name@.skip(j as int));
                    assert(value as nat == spec_run_value(run@));
                }
                i = j;
            } else {
                let one = name.substring_char(i, i + 1);
                r.append(one);
                proof {
                    let rest = name@.skip(i as int);
                    assert(rest[0] == name@[i as int]);
                    assert(rest.drop_first() =~= name@.skip(i + 1));
                    assert(name@.subrange(i as int, i + 1) =~= seq![name@[i as int]]);
                    assert(spec_natural_key(rest) == seq![name@[i as int]] + spec_natural_key(
                        name@.skip(i + 1),
                    ));
                }
                i = i + 1;
            }
        }
        proof {
            assert(name@.skip(n as int) =~= Seq::<char>::empty());
            assert(r@ =~= spec_natural_key(name@));
        }
        r
    }
}

/// The title a scanned book gets before any tags are read: the first
/// file's stem for standalone files in the scanned root, the directory's
/// own name otherwise, and a placeholder when neither yields a name.
pub fn book_title_for(book_dir: &str, audiobook_dir: &str, first_file: Option<&String>) -> (r:
    String)
    ensures
        book_dir@ == audiobook_dir@ ==> (match first_file {
            Some(f) => r@ == spec_file_stem(spec_file_name(f@)),
            None => r@ == "Unknown Book"@,
        }),
        book_dir@ != audiobook_dir@ ==> (if spec_file_name(book_dir@).len() > 0 {
            r@ == spec_file_name(book_dir@)
        } else {
            r@ == "Unknown Book"@
        }),
{
    if str_eq(book_dir, audiobook_dir) {
        match first_file {
            Some(f) => file_stem_of(file_name_of(f.as_str()).as_str()),
            None => String::from_str("Unknown Book"),
        }
    } else {
        let name = file_name_of(book_dir);
        if name.as_str().unicode_len() > 0 {
            name
        } else {
            String::from_str("Unknown Book")
        }
    }
}

/// Overrides a freshly scanned book's title and author with the tags
/// read from its first audio file: a non-empty title tag replaces the
/// title, a non-empty artist tag the author, and a non-empty album tag
/// replaces the title last.
pub fn apply_metadata_tags(
    book: &mut Book,
    title: Option<String>,
    artist: Option<String>,
    album: Option<String>,
)
    ensures
        final(book).title@ == (match album {
            Some(al) if al@.len() > 0 => al@,
            _ => match title {
                Some(t) if t@.len() > 0 => t@,
                _ => old(book).title@,
            },
        }),
        final(book).author@ == (match artist {
            Some(a) if a@.len() > 0 => a@,
            _ => old(book).author@,
        }),
        final(book).description == old(book).description,
        final(book).chapters == old(book).chapters,
        final(book).cover_path == old(book).cover_path,
        final(book).path == old(book).path,
{
    if let Some(t) = title {
        if t.as_str().unicode_len() > 0 {
            book.title = t;
        }
    }
    if let Some(a) = artist {
        if a.as_str().unicode_len() > 0 {
            book.author = a;
        }
    }
    if let Some(al) = album {
        if al.as_str().unicode_len() > 0 {
            book.title = al;
        }
    }
}

/// The chapter names a book falls back to when its files hold none: the
/// stem of each audio file, in order.
pub fn chapter_names_from_files(files: &Vec<String>) -> (r: Vec<String>)
    ensures
        r@.len() == files@.len(),
        forall|i: int|
            0 <= i < files@.len() ==> r@[i]@ == spec_file_stem(spec_file_name(files@[i]@)),
{
    let n = files.len();
    let mut r: Vec<String> = Vec::new();
    for i in 0..n
        invariant
            n == files@.len(),
            r@.len() == i,
            forall|m: int|
                0 <= m < i ==> r@[m]@ == spec_file_stem(spec_file_name(files@[m]@)),
    {
        let name = file_name_of(files[i].as_str());
        r.push(file_stem_of(name.as_str()));
    }
    r
}

/// Compares two strings by their characters.
fn str_eq(a: &str, b: &str) -> (r: bool)
    ensures
        r == (a@ == b@),
{
    let an = a.unicode_len();
    let bn = b.unicode_len();
    if an != bn {
        proof {
            assert(a@ != b@) by {
                if a@ == b@ {
                    assert(a@.len() == b@.len());
                }
            }
        }
        return false;
    }
    let mut i: usize = 0;
    while i < an
        invariant
            an == a@.len(),
            bn == b@.len(),
            an == bn,
            0 <= i <= an,
            forall|m: int| 0 <= m < i ==> a@[m] == b@[m],
        decreases an - i,
    {
        if a.get_char(i) != b.get_char(i) {
            proof {
                assert(a@[i as int] != b@[i as int]);
            }
            return false;
        }
        i = i + 1;
    }
    proof {
        assert(a@ =~= b@);
    }
    true
}

/// The part of a path after its last separator.
pub fn file_name_of(path: &str) -> (r: String)
    ensures
        r@ == spec_file_name(path@),
{
    match last_index_of(path, '/') {
        Some(k) => {
            proof {
                lemma_last_index_of_props(path@, '/');
            }
            let n = path.unicode_len();
            let r = path.substring_char(k + 1, n);
            proof {
                assert(path@.subrange(k + 1, n as int) =~= path@.skip(k + 1));
            }
            r.to_owned()
        },
        None => path.to_owned(),
    }
}

/// A file name with its extension removed.
pub fn file_stem_of(name: &str) -> (r: String)
    ensures
        r@ == spec_file_stem(name@),
{
    match last_index_of(name, '.') {
        Some(k) => {
            proof {
                lemma_last_index_of_props(name@, '.');
            }
            if k > 0 {
                let r = name.substring_char(0, k);
                proof {
                    assert(name@.subrange(0, k as int) =~= name@.take(k as int));
                }
                r.to_owned()
            } else {
                name.to_owned()
            }
        },
        None => name.to_owned(),
    }
}

} // verus!
