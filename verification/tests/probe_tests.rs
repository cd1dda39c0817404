use decibelle::probe::{
    chapter_from_parts, chapter_titles_from_json, chapters_from_json, duration_ms_from_probe,
    fallback_chapter_title, format_tag_from_probe, parse_seconds_to_ms,
};

#[test]
fn parses_decimal_seconds_to_milliseconds() {
    assert_eq!(parse_seconds_to_ms("0"), Some(0));
    assert_eq!(parse_seconds_to_ms("1"), Some(1_000));
    assert_eq!(parse_seconds_to_ms("1.5"), Some(1_500));
    assert_eq!(parse_seconds_to_ms("123.456"), Some(123_456));
    // sub-millisecond digits are cut off
    assert_eq!(parse_seconds_to_ms("12.3456"), Some(12_345));
    assert_eq!(parse_seconds_to_ms(".5"), Some(500));
    assert_eq!(parse_seconds_to_ms("3."), Some(3_000));
    assert_eq!(parse_seconds_to_ms("0.07"), Some(70));
    assert_eq!(parse_seconds_to_ms(""), None);
    assert_eq!(parse_seconds_to_ms("."), None);
    assert_eq!(parse_seconds_to_ms("abc"), None);
    assert_eq!(parse_seconds_to_ms("1.2.3"), None);
    assert_eq!(parse_seconds_to_ms("-1"), None);
    assert_eq!(parse_seconds_to_ms("99999999999999999999"), None);
}

#[test]
fn fallback_titles_count_from_one() {
    assert_eq!(fallback_chapter_title(0), "Chapter 1");
    assert_eq!(fallback_chapter_title(9), "Chapter 10");
}

#[test]
fn chapters_come_from_parts_with_fallbacks() {
    let c = chapter_from_parts(
        2,
        None,
        Some(String::from("30.25")),
        Some(String::from("90.5")),
    );
    assert_eq!(c.title, "Chapter 3");
    assert_eq!(c.start_ms, 30_250);
    assert_eq!(c.end_ms, 90_500);

    let c2 = chapter_from_parts(0, Some(String::from("Prologue")), None, Some(String::from("x")));
    assert_eq!(c2.title, "Prologue");
    assert_eq!(c2.start_ms, 0);
    assert_eq!(c2.end_ms, 0);
}

#[test]
fn reads_chapters_from_prober_json() {
    let json = "{\"chapters\": [\
        {\"id\": 0, \"start_time\": \"0.000000\", \"end_time\": \"30.500000\", \"tags\": {\"title\": \"Opening\"}},\
        {\"id\": 1, \"start_time\": \"30.500000\", \"end_time\": \"61.250000\"}]}";
    let chapters = chapters_from_json(json);
    assert_eq!(chapters.len(), 2);
    assert_eq!(chapters[0].title, "Opening");
    assert_eq!(chapters[0].start_ms, 0);
    assert_eq!(chapters[0].end_ms, 30_500);
    assert_eq!(chapters[1].title, "Chapter 2");
    assert_eq!(chapters[1].start_ms, 30_500);
    assert_eq!(chapters[1].end_ms, 61_250);

    let titles = chapter_titles_from_json(json);
    assert_eq!(titles, vec![String::from("Opening"), String::from("Chapter 2")]);

    assert!(chapters_from_json("not json").is_empty());
    assert!(chapters_from_json("{}").is_empty());
}

#[test]
fn reads_duration_and_tags_from_prober_json() {
    let json = "{\"format\": {\"duration\": \"3671.043000\", \"tags\": {\"title\": \"A Book\", \"artist\": \"Someone\"}}}";
    assert_eq!(duration_ms_from_probe(json), Some(3_671_043));
    assert_eq!(format_tag_from_probe(json, "title"), Some(String::from("A Book")));
    assert_eq!(format_tag_from_probe(json, "artist"), Some(String::from("Someone")));
    assert_eq!(format_tag_from_probe(json, "album"), None);
    assert_eq!(duration_ms_from_probe("{\"format\": {}}"), None);
    assert_eq!(duration_ms_from_probe("nope"), None);
}
