//! Matching audio files to a book title: case-insensitive word search
//! used when files lie loose in the scanned root directory.

use vstd::prelude::*;
use vstd::string::*;

verus! {

/// What lower-casing a string yields.  The result is a function of the
/// characters alone; what it is for given characters only the Unicode
/// tables say.
pub uninterp spec fn lower_of(s: Seq<char>) -> Seq<char>;

/// Relies on str::to_lowercase: the result depends on the characters
/// alone, and an empty string stays empty.
#[verifier::external_body]
fn lowercase(s: &str) -> (r: String)
    ensures
        r@ == lower_of(s@),
        s@.len() == 0 ==> r@.len() == 0,
{
    s.to_lowercase()
}

/// Whether `needle` occurs contiguously inside `hay`.
pub open spec fn spec_contains_sub(hay: Seq<char>, needle: Seq<char>) -> bool {
    exists|off: int|
        0 <= off && off + needle.len() <= hay.len() && #[trigger] hay.subrange(
            off,
            off + needle.len(),
        ) == needle
}

/// Substring search: whether `needle` occurs inside `hay`.
pub fn contains_sub(hay: &str, needle: &str) -> (r: bool)
    ensures
        r == spec_contains_sub(hay@, needle@),
{
    let hn = hay.unicode_len();
    let nn = needle.unicode_len();
    if nn > hn {
        proof {
            assert(!spec_contains_sub(hay@, needle@));
        }
        return false;
    }
    if nn == 0 {
        proof {
            assert(hay@.subrange(0, 0 + needle@.len() as int) =~= needle@);
        }
        return true;
    }
    let mut off: usize = 0;
    while off <= hn - nn
        invariant
            hn == hay@.len(),
            nn == needle@.len(),
            1 <= nn <= hn,
            0 <= off <= hn - nn + 1,
            forall|o: int|
                0 <= o < off ==> #[trigger] hay@.subrange(o, o + nn as int) != needle@,
        decreases hn - nn - off + 1,
    {
        let mut j: usize = 0;
        let mut matched = true;
        while j < nn
            invariant
                hn == hay@.len(),
                nn == needle@.len(),
                off + nn <= hn,
                0 <= j <= nn,
                matched ==> forall|m: int| 0 <= m < j ==> hay@[off + m] == needle@[m],
                !matched ==> hay@.subrange(off as int, off + nn as int) != needle@,
            decreases nn - j,
        {
            if matched {
                if hay.get_char(off + j) != needle.get_char(j) {
                    proof {
                        assert(hay@.subrange(off as int, off + nn as int)[j as int] == hay@[off
                            + j]);
                    }
                    matched = false;
                }
            }
            j = j + 1;
        }
        if matched {
            proof {
                assert(hay@.subrange(off as int, off + nn as int) =~= needle@);
            }
            return true;
        }
        off = off + 1;
    }
    false
}

/// Whether a character separates words.
pub open spec fn spec_is_space(c: char) -> bool {
    c == ' ' || c == '\t' || c == '\n' || c == '\r'
}

/// Length of the maximal non-space prefix.
pub open spec fn spec_word_prefix_len(s: Seq<char>) -> int
    decreases s.len(),
{
    if s.len() == 0 || spec_is_space(s[0]) {
        0
    } else {
        1 + spec_word_prefix_len(s.drop_first())
    }
}

/// The whitespace-separated words of a string, in order.
pub open spec fn spec_words(s: Seq<char>) -> Seq<Seq<char>>
    decreases s.len(),
    via spec_words_decreases
{
    if s.len() == 0 {
        Seq::empty()
    } else if spec_is_space(s[0]) {
        spec_words(s.drop_first())
    } else {
        let k = spec_word_prefix_len(s);
        seq![s.take(k)] + spec_words(s.skip(k))
    }
}

#[via_fn]
proof fn spec_words_decreases(s: Seq<char>) {
    lemma_word_prefix_len_bounds(s);
}

/// The non-space prefix stays within the string and is positive exactly
/// when the string starts with a non-space.
proof fn lemma_word_prefix_len_bounds(s: Seq<char>)
    ensures
        0 <= spec_word_prefix_len(s) <= s.len(),
        s.len() > 0 && !spec_is_space(s[0]) ==> spec_word_prefix_len(s) >= 1,
        forall|m: int| 0 <= m < spec_word_prefix_len(s) ==> !spec_is_space(s[m]),
        spec_word_prefix_len(s) < s.len() ==> spec_is_space(s[spec_word_prefix_len(s)]),
    decreases s.len(),
{
    if s.len() > 0 && !spec_is_space(s[0]) {
        lemma_word_prefix_len_bounds(s.drop_first());
        assert(forall|m: int| 1 <= m < s.len() ==> s[m] == s.drop_first()[m - 1]);
    }
}

/// A scan that stops at the first space has found the word prefix.
proof fn lemma_word_prefix_len_is(s: Seq<char>, k: int)
    requires
        0 <= k <= s.len(),
        forall|m: int| 0 <= m < k ==> !spec_is_space(s[m]),
        k < s.len() ==> spec_is_space(s[k]),
    ensures
        spec_word_prefix_len(s) == k,
    decreases k,
{
    if k > 0 {
        lemma_word_prefix_len_is(s.drop_first(), k - 1);
    }
}

/// Whether a character separates words.
fn is_space(c: char) -> (r: bool)
    ensures
        r == spec_is_space(c),
{
    c == ' ' || c == '\t' || c == '\n' || c == '\r'
}

/// Splits a string into its whitespace-separated words.
pub fn split_words(s: &str) -> (r: Vec<String>)
    ensures
        r@.len() == spec_words(s@).len(),
        forall|i: int| 0 <= i < r@.len() ==> r@[i]@ == spec_words(s@)[i],
{
    let n = s.unicode_len();
    let mut r: Vec<String> = Vec::new();
    let ghost mut done: Seq<Seq<char>> = Seq::empty();
    let mut i: usize = 0;
    proof {
        assert(s@.skip(0) =~= s@);
        assert(done + spec_words(s@) =~= spec_words(s@));
    }
    while i < n
        invariant
            n == s@.len(),
            0 <= i <= n,
            spec_words(s@) == done + spec_words(s@.skip(i as int)),
            r@.len() == done.len(),
            forall|m: int| 0 <= m < done.len() ==> r@[m]@ == done[m],
        decreases n - i,
    {
        let c = s.get_char(i);
        if is_space(c) {
            proof {
                let rest = s@.skip(i as int);
                assert(rest[0] == s@[i as int]);
                assert(rest.drop_first() =~= s@.skip(i + 1));
            }
            i = i + 1;
        } else {
            let mut j: usize = i + 1;
            while j < n && !is_space(s.get_char(j))
                invariant
                    n == s@.len(),
                    i < j <= n,
                    forall|m: int| i <= m < j ==> !spec_is_space(s@[m]),
                decreases n - j,
            {
                j = j + 1;
            }
            proof {
                let rest = s@.skip(i as int);
                assert(forall|m: int|
                    0 <= m < j - i ==> rest[m] == s@[m + i] && !spec_is_space(rest[m]));
                if j - i < rest.len() {
                    assert(rest[j - i] == s@[j as int]);
                }
                lemma_word_prefix_len_is(rest, j - i);
            }
            let word = s.substring_char(i, j);
            r.push(word.to_owned());
            proof {
                let rest = s@.skip(i as int);
                assert(rest.take(j - i) =~= s@.subrange(i as int, j as int));
                assert(rest.skip(j - i) =~= s@.skip(j as int));
                done = done.push(s@.subrange(i as int, j as int));
                assert(spec_words(s@) =~= done + spec_words(s@.skip(j as int)));
            }
            i = j;
        }
    }
    proof {
        assert(s@.skip(n as int) =~= Seq::<char>::empty());
        assert(spec_words(s@.skip(n as int)) =~= Seq::<Seq<char>>::empty());
        assert(spec_words(s@) =~= done);
    }
    r
}

/// Whether a file stem matches a book title: some word of the title
/// occurs, lower-cased, inside the lower-cased stem.
pub fn file_matches_title(file_stem: &str, book_title: &str) -> (r: bool)
    ensures
        r == (exists|i: int|
            0 <= i < spec_words(book_title@).len() && spec_contains_sub(
                lower_of(file_stem@),
                lower_of(spec_words(book_title@)[i]),
            )),
{
    let words = split_words(book_title);
    let stem_lower = lowercase(file_stem);
    let n = words.len();
    for i in 0..n
        invariant
            n == words@.len(),
            n == spec_words(book_title@).len(),
            stem_lower@ == lower_of(file_stem@),
            forall|m: int| 0 <= m < n ==> words@[m]@ == spec_words(book_title@)[m],
            forall|m: int|
                0 <= m < i ==> !spec_contains_sub(
                    lower_of(file_stem@),
                    lower_of(spec_words(book_title@)[m]),
                ),
    {
        let word_lower = lowercase(words[i].as_str());
        proof {
            assert(words@[i as int]@ == spec_words(book_title@)[i as int]);
            assert(word_lower@ == lower_of(spec_words(book_title@)[i as int]));
        }
        if contains_sub(stem_lower.as_str(), word_lower.as_str()) {
            proof {
                assert(spec_contains_sub(
                    lower_of(file_stem@),
                    lower_of(spec_words(book_title@)[i as int]),
                ));
            }
            return true;
        }
        proof {
            assert(!spec_contains_sub(
                lower_of(file_stem@),
                lower_of(spec_words(book_title@)[i as int]),
            ));
        }
    }
    false
}

} // verus!
