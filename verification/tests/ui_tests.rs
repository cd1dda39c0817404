use decibelle::config::Config;
use decibelle::layout::{clicked_index, point_in_region, Region};
use decibelle::console::{pane_left_of, pane_right_of, side_of, ConsoleLog, ConsoleMessage, FocusedPane, Side};
use decibelle::cover::{cover_url, CoverMessage};
use decibelle::loading::LoadingAnimation;
use decibelle::matching::{contains_sub, file_matches_title, split_words};
use decibelle::nav::{decrement, increment};
use decibelle::notify::{NotificationLevel, NotificationManager};
use decibelle::playback_state::{Chapter, PlaybackState};
use decibelle::theme::{init_theme, Rgb, Theme, ThemeName};

fn msg(text: &str) -> ConsoleMessage {
    ConsoleMessage {
        timestamp: String::from("12:00:00"),
        level: String::from("INFO"),
        message: String::from(text),
    }
}

#[test]
fn themes_have_their_base_colors() {
    let t = init_theme(ThemeName::TokyoNight);
    assert_eq!(t.bg, Rgb { r: 26, g: 27, b: 38 });
    let t = init_theme(ThemeName::Hackerman);
    assert_eq!(t.fg, Rgb { r: 0, g: 255, b: 65 });
    let t = Theme::catppuccin_mocha();
    assert_eq!(t.notification_color(NotificationLevel::Error), Rgb { r: 243, g: 139, b: 168 });
    assert_eq!(t.slider_color(true), t.playing);
    assert_eq!(t.slider_color(false), t.paused);
    assert_eq!(ThemeName::default(), ThemeName::CatppuccinMocha);
}

#[test]
fn notifications_expire_by_level() {
    let mut m = NotificationManager::new();
    m.info(String::from("hello"), 1_000);
    m.error(String::from("bad"), 1_000);
    assert_eq!(m.active_notifications().len(), 2);
    // after the short duration only the error survives
    m.tick(3_500);
    let left = m.active_notifications();
    assert_eq!(left.len(), 1);
    assert_eq!(left[0].text, "bad");
    assert_eq!(left[0].level, NotificationLevel::Error);
    m.tick(5_000);
    assert!(m.active_notifications().is_empty());
    assert_eq!(NotificationLevel::Info.prefix().contains("INFO"), true);
}

#[test]
fn loading_animation_advances_on_its_clock() {
    let mut a = LoadingAnimation::new(0);
    let first = a.current_frame();
    a.tick(40);
    assert_eq!(a.current_frame(), first);
    a.tick(80);
    let second = a.current_frame();
    assert_ne!(second, first);
    // the cycle wraps after ten frames
    let mut now = 80;
    for _ in 0..9 {
        now += 80;
        a.tick(now);
    }
    assert_eq!(a.current_frame(), first);
}

#[test]
fn console_caps_its_history() {
    let mut c = ConsoleLog::new(10);
    for i in 0..1005u64 {
        c.log_message(msg(&format!("line {}", i)));
    }
    assert_eq!(c.len(), 1000);
    assert_eq!(c.message_at(0).message, "line 5");
    // the reader follows the bottom
    assert_eq!(c.scroll_offset, 990);
}

#[test]
fn console_scrolling_stays_in_range() {
    let mut c = ConsoleLog::new(10);
    for i in 0..30u64 {
        c.log_message(msg(&format!("line {}", i)));
    }
    c.scroll_console_to_top();
    assert_eq!(c.scroll_offset, 0);
    c.scroll_console_up();
    assert_eq!(c.scroll_offset, 0);
    c.scroll_console_down();
    assert_eq!(c.scroll_offset, 1);
    c.scroll_console_page_down();
    assert_eq!(c.scroll_offset, 11);
    c.scroll_console_to_bottom();
    assert_eq!(c.scroll_offset, 20);
    c.scroll_console_down();
    assert_eq!(c.scroll_offset, 20);
    c.scroll_console_page_up();
    assert_eq!(c.scroll_offset, 10);
    c.update_console_viewport_height(34);
    assert_eq!(c.viewport_height, 30);
    assert_eq!(c.scroll_offset, 0);
    c.clear();
    assert_eq!(c.len(), 0);
}

#[test]
fn panes_cycle_and_know_their_side() {
    assert_eq!(pane_right_of(FocusedPane::BookList), FocusedPane::ChapterList);
    assert_eq!(pane_left_of(FocusedPane::BookList), FocusedPane::Console);
    let mut p = FocusedPane::BookList;
    for _ in 0..5 {
        p = pane_right_of(p);
    }
    assert_eq!(p, FocusedPane::BookList);
    assert_eq!(side_of(FocusedPane::Console), Side::Bottom);
    assert_eq!(side_of(FocusedPane::BookInfo), Side::Right);
}

#[test]
fn config_readiness_requires_a_real_key() {
    let mut c = Config::default();
    assert_eq!(c.server_url, "http://localhost:13378");
    assert!(!c.is_ready());
    c.api_key = String::new();
    assert!(!c.is_ready());
    c.api_key = String::from("some-real-key");
    assert!(c.is_ready());
}

#[test]
fn cover_urls_name_the_item() {
    let url = cover_url(&String::from("http://srv:1337"), &String::from("item-9"));
    assert_eq!(url, "http://srv:1337/api/items/item-9/cover");
}

#[test]
fn cover_messages_carry_their_item() {
    let loaded = CoverMessage::Loaded { item_id: String::from("item-9"), data: vec![1, 2, 3] };
    match loaded {
        CoverMessage::Loaded { item_id, data } => {
            assert_eq!(item_id, "item-9");
            assert_eq!(data.len(), 3);
        }
        CoverMessage::Error { .. } => panic!("expected a loaded cover"),
    }
}

#[test]
fn playback_state_ticks_and_finishes() {
    let mut s = PlaybackState::default();
    s.total_duration_ms = 250;
    s.is_playing = true;
    s.update_position();
    assert_eq!(s.current_position_ms, 100);
    assert!(s.is_playing);
    s.update_position();
    s.update_position();
    // the position clamps at the total duration and playback stops
    assert_eq!(s.current_position_ms, 250);
    assert!(!s.is_playing);

    let mut s2 = PlaybackState::default();
    s2.total_duration_ms = 100_000;
    s2.is_playing = true;
    s2.chapters = vec![
        Chapter { title: String::from("A"), start_ms: 0, end_ms: 150 },
        Chapter { title: String::from("B"), start_ms: 150, end_ms: 400 },
    ];
    s2.update_position();
    assert_eq!(s2.current_chapter, Some(0));
    s2.update_position();
    assert_eq!(s2.current_chapter, Some(1));
    assert!(!s2.is_finished(false));
    s2.current_position_ms = 400;
    assert!(s2.is_finished(false));
    // without chapters only the sink decides
    let s3 = PlaybackState::default();
    assert!(s3.is_finished(true));
    assert!(!s3.is_finished(false));
}

#[test]
fn title_matching_is_case_insensitive() {
    assert!(file_matches_title("The_Dune_Part1", "dune messiah"));
    assert!(file_matches_title("CHAPTER-ONE", "one more thing"));
    assert!(!file_matches_title("something else", "dune"));
    assert_eq!(split_words("  two  words "), vec![String::from("two"), String::from("words")]);
    assert!(contains_sub("hello world", "lo wo"));
    assert!(!contains_sub("hello", "world"));
    assert!(contains_sub("abc", ""));
}

#[test]
fn selection_arithmetic_wraps_and_sticks() {
    assert_eq!(increment(0, 3, false), 1);
    assert_eq!(increment(2, 3, false), 2);
    assert_eq!(increment(2, 3, true), 0);
    assert_eq!(decrement(0, 3, false), 0);
    assert_eq!(decrement(0, 3, true), 2);
    assert_eq!(decrement(2, 3, false), 1);
}

#[test]
fn mouse_hit_testing_selects_rows() {
    let region = Region { x: 2, y: 3, width: 10, height: 6 };
    assert!(point_in_region(2, 3, &region));
    assert!(point_in_region(11, 8, &region));
    assert!(!point_in_region(12, 3, &region));
    assert!(!point_in_region(2, 9, &region));
    // rows 4..=7 hold entries; the borders at rows 3 and 8 select nothing
    assert_eq!(clicked_index(3, &region, 10), None);
    assert_eq!(clicked_index(4, &region, 10), Some(0));
    assert_eq!(clicked_index(7, &region, 10), Some(3));
    assert_eq!(clicked_index(8, &region, 10), None);
    // a row past the list's end selects nothing
    assert_eq!(clicked_index(6, &region, 2), None);
}
