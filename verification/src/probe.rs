//! Reading the JSON that the stream prober prints: the embedded
//! chapters, the container duration and the format tags.
//!
//! The JSON tree is handled by the `serde_json` crate behind trusted
//! wrappers; a tree value is opaque here.  Everything computed from the
//! extracted plain strings — second-to-millisecond parsing, fallback
//! chapter titles — is verified with exact contracts.

use crate::playback_state::Chapter;
use crate::text::{
    parse_u64, spec_dec_digits, spec_dec_value, spec_is_digit_char, u64_to_string,
};
use vstd::prelude::*;
use vstd::string::*;

verus! {

#[verifier::external_type_specification]
#[verifier::external_body]
pub struct ExValue(serde_json::Value);

/// Relies on serde_json::from_str: parses JSON text into a value tree,
/// or nothing for malformed input.
#[verifier::external_body]
fn json_parse(s: &str) -> (r: Option<serde_json::Value>) {
    serde_json::from_str(s).ok()
}

/// Relies on serde_json::Value::get: looks a key up in a JSON object.
#[verifier::external_body]
fn json_get<'a>(v: &'a serde_json::Value, key: &str) -> (r: Option<&'a serde_json::Value>) {
    v.get(key)
}

/// Relies on serde_json::Value::as_array: the elements of a JSON array.
#[verifier::external_body]
fn json_as_array(v: &serde_json::Value) -> (r: Option<&Vec<serde_json::Value>>) {
    v.as_array()
}

/// Relies on serde_json::Value::as_str: the text of a JSON string.
#[verifier::external_body]
fn json_as_str(v: &serde_json::Value) -> (r: Option<&str>) {
    v.as_str()
}

/// Index of the first occurrence of `c`.
pub open spec fn spec_first_index_of(s: Seq<char>, c: char) -> Option<int>
    decreases s.len(),
{
    if s.len() == 0 {
        None
    } else if s[0] == c {
        Some(0)
    } else {
        match spec_first_index_of(s.drop_first(), c) {
            Some(k) => Some(k + 1),
            None => None,
        }
    }
}

/// What `spec_first_index_of` finds: the first occurrence, or nothing.
pub proof fn lemma_first_index_of_props(s: Seq<char>, c: char)
    ensures
        match spec_first_index_of(s, c) {
            Some(k) => 0 <= k < s.len() && s[k] == c && (forall|m: int| 0 <= m < k ==> s[m] != c),
            None => forall|m: int| 0 <= m < s.len() ==> s[m] != c,
        },
    decreases s.len(),
{
    if s.len() > 0 && s[0] != c {
        lemma_first_index_of_props(s.drop_first(), c);
        assert(forall|m: int| 1 <= m < s.len() ==> s[m] == s.drop_first()[m - 1]);
    }
}

/// The milliseconds denoted by a fractional-second digit string: its
/// first three digits, scaled to thousandths; further digits are cut
/// off.
pub open spec fn spec_frac_ms(frac: Seq<char>) -> nat {
    if frac.len() == 0 {
        0
    } else if frac.len() == 1 {
        spec_dec_value(frac) * 100
    } else if frac.len() == 2 {
        spec_dec_value(frac) * 10
    } else {
        spec_dec_value(frac.take(3))
    }
}

/// The milliseconds denoted by a decimal seconds string such as the
/// prober prints: an optional whole part and an optional fractional part
/// around at most one dot, digits only, with sub-millisecond digits cut
/// off; nothing when the string is malformed or the value does not fit.
pub open spec fn spec_seconds_to_ms(s: Seq<char>) -> Option<nat> {
    match spec_first_index_of(s, '.') {
        None => {
            if s.len() > 0 && (forall|i: int| 0 <= i < s.len() ==> spec_is_digit_char(s[i]))
                && spec_dec_value(s) * 1000 <= u64::MAX as nat {
                Some(spec_dec_value(s) * 1000)
            } else {
                None
            }
        },
        Some(k) => {
            let whole = s.take(k);
            let frac = s.skip(k + 1);
            if (whole.len() > 0 || frac.len() > 0) && (forall|i: int|
                0 <= i < whole.len() ==> spec_is_digit_char(whole[i])) && (forall|i: int|
                0 <= i < frac.len() ==> spec_is_digit_char(frac[i])) && spec_dec_value(whole) * 1000
                + spec_frac_ms(frac) <= u64::MAX as nat {
                Some(spec_dec_value(whole) * 1000 + spec_frac_ms(frac))
            } else {
                None
            }
        },
    }
}

/// Index of the first occurrence of `c`.
fn first_index_of(s: &str, c: char) -> (r: Option<usize>)
    ensures
        match r {
            Some(k) => Some(k as int) == spec_first_index_of(s@, c),
            None => spec_first_index_of(s@, c) is None,
        },
{
    let n = s.unicode_len();
    let mut i: usize = 0;
    while i < n
        invariant
            n == s@.len(),
            0 <= i <= n,
            forall|m: int| 0 <= m < i ==> s@[m] != c,
        decreases n - i,
    {
        if s.get_char(i) == c {
            proof {
                lemma_first_index_of_props(s@, c);
            }
            return Some(i);
        }
        i = i + 1;
    }
    proof {
        lemma_first_index_of_props(s@, c);
    }
    None
}

/// Whether every character of a string is a decimal digit.
fn all_digits(s: &str) -> (r: bool)
    ensures
        r == (forall|i: int| 0 <= i < s@.len() ==> spec_is_digit_char(s@[i])),
{
    let n = s.unicode_len();
    let mut i: usize = 0;
    while i < n
        invariant
            n == s@.len(),
            0 <= i <= n,
            forall|m: int| 0 <= m < i ==> spec_is_digit_char(s@[m]),
        decreases n - i,
    {
        let c = s.get_char(i);
        let d = c == '0' || c == '1' || c == '2' || c == '3' || c == '4' || c == '5' || c == '6'
            || c == '7' || c == '8' || c == '9';
        if !d {
            return false;
        }
        i = i + 1;
    }
    true
}

/// Parses a decimal seconds string into milliseconds, per
/// [`spec_seconds_to_ms`].
pub fn parse_seconds_to_ms(s: &str) -> (r: Option<u64>)
    ensures
        r is Some <==> spec_seconds_to_ms(s@) is Some,
        r matches Some(v) ==> Some(v as nat) == spec_seconds_to_ms(s@),
{
    let n = s.unicode_len();
    match first_index_of(s, '.') {
        None => {
            match parse_u64(s) {
                Some(v) => {
                    if v <= u64::MAX / 1000 {
                        proof {
                            assert(v * 1000 <= u64::MAX) by (nonlinear_arith)
                                requires
                                    v <= u64::MAX / 1000,
                                    v >= 0,
                            ;
                        }
                        Some(v * 1000)
                    } else {
                        proof {
                            assert(v * 1000 > u64::MAX) by (nonlinear_arith)
                                requires
                                    v > u64::MAX / 1000,
                                    v >= 0,
                            ;
                        }
                        None
                    }
                },
                None => None,
            }
        },
        Some(k) => {
            proof {
                lemma_first_index_of_props(s@, '.');
            }
            let whole_str = s.substring_char(0, k);
            proof {
                assert(s@.subrange(0, k as int) =~= s@.take(k as int));
            }
            let whole_v: u64 = if k == 0 {
                proof {
                    assert(s@.take(0) =~= Seq::<char>::empty());
                }
                0
            } else {
                match parse_u64(whole_str) {
                    Some(v) => v,
                    None => {
                        proof {
                            let whole = s@.take(k as int);
                            assert(whole.len() == k);
                            if forall|i: int| 0 <= i < whole.len() ==> spec_is_digit_char(
                                whole[i],
                            ) {
                                assert(spec_dec_value(whole) > u64::MAX as nat);
                                assert(spec_dec_value(whole) <= spec_dec_value(whole) * 1000) by (
                                nonlinear_arith)
                                    requires
                                        spec_dec_value(whole) >= 0,
                                ;
                            }
                        }
                        return None;
                    },
                }
            };
            let frac_str = s.substring_char(k + 1, n);
            proof {
                assert(s@.subrange(k + 1, n as int) =~= s@.skip(k + 1));
            }
            if k == 0 && frac_str.unicode_len() == 0 {
                return None;
            }
            if !all_digits(frac_str) {
                return None;
            }
            let frac_len = frac_str.unicode_len();
            let frac_ms: u64 = if frac_len == 0 {
                0
            } else if frac_len == 1 {
                proof {
                    lemma_dec_value_small(frac_str@);
                }
                match parse_u64(frac_str) {
                    Some(v) => v * 100,
                    None => 0,
                }
            } else if frac_len == 2 {
                proof {
                    lemma_dec_value_small(frac_str@);
                }
                match parse_u64(frac_str) {
                    Some(v) => v * 10,
                    None => 0,
                }
            } else {
                let first3 = frac_str.substring_char(0, 3);
                proof {
                    assert(frac_str@.subrange(0, 3) =~= frac_str@.take(3));
                    lemma_dec_value_small(frac_str@.take(3));
                }
                match parse_u64(first3) {
                    Some(v) => v,
                    None => 0,
                }
            };
            proof {
                assert(frac_ms as nat == spec_frac_ms(frac_str@));
            }
            if whole_v <= (u64::MAX - frac_ms) / 1000 {
                proof {
                    assert(whole_v * 1000 + frac_ms <= u64::MAX) by (nonlinear_arith)
                        requires
                            whole_v <= (u64::MAX - frac_ms) / 1000,
                            whole_v >= 0,
                            0 <= frac_ms <= u64::MAX,
                    ;
                }
                Some(whole_v * 1000 + frac_ms)
            } else {
                proof {
                    assert(whole_v * 1000 + frac_ms > u64::MAX) by (nonlinear_arith)
                        requires
                            whole_v > (u64::MAX - frac_ms) / 1000,
                            whole_v >= 0,
                            0 <= frac_ms <= u64::MAX,
                    ;
                }
                None
            }
        },
    }
}

/// Any character string of length `n` denotes a value below ten to the
/// `n`.
proof fn lemma_dec_value_bound(s: Seq<char>)
    ensures
        spec_dec_value(s) < crate::text::pow10(s.len()),
    decreases s.len(),
{
    if s.len() == 0 {
        assert(crate::text::pow10(0) == 1);
    } else {
        lemma_dec_value_bound(s.drop_last());
        let v1 = spec_dec_value(s.drop_last());
        let d = crate::text::spec_char_digit(s.last());
        let p1 = crate::text::pow10((s.len() - 1) as nat);
        assert(crate::text::pow10(s.len()) == 10 * p1);
        assert(v1 * 10 + d < 10 * p1) by (nonlinear_arith)
            requires
                v1 < p1,
                0 <= d < 10,
                p1 >= 1,
        ;
    }
}

/// A string of at most three digits denotes less than a thousand.
proof fn lemma_dec_value_small(s: Seq<char>)
    requires
        s.len() <= 3,
    ensures
        spec_dec_value(s) < 1000,
{
    lemma_dec_value_bound(s);
    assert(crate::text::pow10(0) == 1);
    assert(crate::text::pow10(1) == 10);
    assert(crate::text::pow10(2) == 100);
    assert(crate::text::pow10(3) == 1000);
}

/// The fallback title of the chapter at `index` (counting from zero).
pub fn fallback_chapter_title(index: u64) -> (r: String)
    requires
        index < u64::MAX,
    ensures
        r@ == "Chapter "@ + spec_dec_digits((index + 1) as nat),
{
    proof {
        reveal_strlit("Chapter ");
    }
    let mut r = String::from_str("Chapter ");
    let num = u64_to_string(index + 1);
    r.append(num.as_str());
    r
}

/// One chapter built from the parts extracted from the prober's JSON:
/// the tagged title or the fallback, and the start and end times parsed
/// from decimal seconds, each falling back to zero.
pub fn chapter_from_parts(
    index: u64,
    title: Option<String>,
    start: Option<String>,
    end: Option<String>,
) -> (r: Chapter)
    requires
        index < u64::MAX,
    ensures
        r.title@ == (match title {
            Some(t) => t@,
            None => "Chapter "@ + spec_dec_digits((index + 1) as nat),
        }),
        r.start_ms as nat == (match start {
            Some(t) => (match spec_seconds_to_ms(t@) {
                Some(v) => v,
                None => 0,
            }),
            None => 0,
        }),
        r.end_ms as nat == (match end {
            Some(t) => (match spec_seconds_to_ms(t@) {
                Some(v) => v,
                None => 0,
            }),
            None => 0,
        }),
{
    let title_text = match title {
        Some(t) => t,
        None => fallback_chapter_title(index),
    };
    let start_ms = match start {
        Some(t) => match parse_seconds_to_ms(t.as_str()) {
            Some(v) => v,
            None => 0,
        },
        None => 0,
    };
    let end_ms = match end {
        Some(t) => match parse_seconds_to_ms(t.as_str()) {
            Some(v) => v,
            None => 0,
        },
        None => 0,
    };
    Chapter { title: title_text, start_ms, end_ms }
}

/// The string under `chapter.tags.title`, if the prober wrote one.
fn chapter_title_tag(chapter: &serde_json::Value) -> (r: Option<String>) {
    match json_get(chapter, "tags") {
        Some(tags) => match json_get(tags, "title") {
            Some(title) => match json_as_str(title) {
                Some(t) => Some(t.to_owned()),
                None => None,
            },
            None => None,
        },
        None => None,
    }
}

/// The string under a chapter's time key, if the prober wrote one.
fn chapter_time_tag(chapter: &serde_json::Value, key: &str) -> (r: Option<String>) {
    match json_get(chapter, key) {
        Some(t) => match json_as_str(t) {
            Some(t) => Some(t.to_owned()),
            None => None,
        },
        None => None,
    }
}

/// The chapters listed in the prober's JSON output.  What each chapter
/// holds is pinned by [`chapter_from_parts`]; how many there are, and
/// what their tags say, depends on the probed file alone.
pub fn chapters_from_json(json: &str) -> (r: Vec<Chapter>) {
    let mut chapters: Vec<Chapter> = Vec::new();
    let parsed = match json_parse(json) {
        Some(v) => v,
        None => {
            return chapters;
        },
    };
    let list = match json_get(&parsed, "chapters") {
        Some(v) => v,
        None => {
            return chapters;
        },
    };
    let items = match json_as_array(list) {
        Some(v) => v,
        None => {
            return chapters;
        },
    };
    let n = items.len();
    for i in 0..n
        invariant
            n == items@.len(),
    {
        let title = chapter_title_tag(&items[i]);
        let start = chapter_time_tag(&items[i], "start_time");
        let end = chapter_time_tag(&items[i], "end_time");
        chapters.push(chapter_from_parts(i as u64, title, start, end));
    }
    chapters
}

/// The chapter titles listed in the prober's JSON output, with the
/// fallback title for untagged chapters.
pub fn chapter_titles_from_json(json: &str) -> (r: Vec<String>) {
    let chapters = chapters_from_json(json);
    let mut titles: Vec<String> = Vec::new();
    let n = chapters.len();
    for i in 0..n
        invariant
            n == chapters@.len(),
    {
        titles.push(chapters[i].title.clone());
    }
    titles
}

/// The container duration in the prober's JSON output, in milliseconds.
pub fn duration_ms_from_probe(json: &str) -> (r: Option<u64>) {
    let parsed = match json_parse(json) {
        Some(v) => v,
        None => {
            return None;
        },
    };
    let format = match json_get(&parsed, "format") {
        Some(v) => v,
        None => {
            return None;
        },
    };
    let duration = match json_get(format, "duration") {
        Some(v) => v,
        None => {
            return None;
        },
    };
    match json_as_str(duration) {
        Some(t) => parse_seconds_to_ms(t),
        None => None,
    }
}

/// The tag under `format.tags.<key>` in the prober's JSON output: how
/// the scanner reads a file's title, artist and album.
pub fn format_tag_from_probe(json: &str, key: &str) -> (r: Option<String>) {
    let parsed = match json_parse(json) {
        Some(v) => v,
        None => {
            return None;
        },
    };
    let format = match json_get(&parsed, "format") {
        Some(v) => v,
        None => {
            return None;
        },
    };
    let tags = match json_get(format, "tags") {
        Some(v) => v,
        None => {
            return None;
        },
    };
    match json_get(tags, key) {
        Some(v) => match json_as_str(v) {
            Some(t) => Some(t.to_owned()),
            None => None,
        },
        None => None,
    }
}

} // verus!
