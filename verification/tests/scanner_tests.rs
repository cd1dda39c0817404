use decibelle::book::Book;
use decibelle::scanner::{
    apply_metadata_tags, book_title_for, chapter_names_from_files, file_name_of, file_stem_of,
    AudiobookScanner,
};

#[test]
fn test_natural_sort_key() {
    let scanner = AudiobookScanner::new(String::from("."));

    let mut files = vec!["chapter1.mp3", "chapter10.mp3", "chapter2.mp3"];

    files.sort_by(|a, b| {
        scanner
            .natural_sort_key(a)
            .cmp(&scanner.natural_sort_key(b))
    });

    assert_eq!(files[0], "chapter1.mp3");
    assert_eq!(files[1], "chapter2.mp3");
    assert_eq!(files[2], "chapter10.mp3");
}

#[test]
fn natural_sort_key_pads_numbers() {
    let scanner = AudiobookScanner::new(String::from("."));
    assert_eq!(scanner.natural_sort_key("chapter2"), "chapter0000000002");
    assert_eq!(scanner.natural_sort_key("no digits"), "no digits");
    assert_eq!(scanner.natural_sort_key("12ab34"), "0000000012ab0000000034");
    // a run too long for a u64 falls back to zero
    assert_eq!(
        scanner.natural_sort_key("x99999999999999999999x"),
        "x0000000000x"
    );
}

#[test]
fn determine_book_directory_takes_parent() {
    let scanner = AudiobookScanner::new(String::from("/home/user/Audiobooks"));
    assert_eq!(
        scanner.determine_book_directory("/home/user/Audiobooks/Dune/ch1.mp3"),
        "/home/user/Audiobooks/Dune"
    );
    assert_eq!(
        scanner.determine_book_directory("/home/user/Audiobooks/standalone.mp3"),
        "/home/user/Audiobooks"
    );
    assert_eq!(scanner.determine_book_directory("loose.mp3"), "");
}

#[test]
fn audio_extensions_are_recognised() {
    let scanner = AudiobookScanner::new(String::from("."));
    assert!(scanner.is_audio_extension("mp3"));
    assert!(scanner.is_audio_extension("m4b"));
    assert!(scanner.is_audio_extension("flac"));
    assert!(!scanner.is_audio_extension("txt"));
}

#[test]
fn file_names_and_stems() {
    assert_eq!(file_name_of("/a/b/c.mp3"), "c.mp3");
    assert_eq!(file_name_of("c.mp3"), "c.mp3");
    assert_eq!(file_stem_of("c.mp3"), "c");
    assert_eq!(file_stem_of("archive.tar.gz"), "archive.tar");
    assert_eq!(file_stem_of(".hidden"), ".hidden");
    assert_eq!(file_stem_of("noext"), "noext");
}

#[test]
fn book_title_prefers_directory_name() {
    let title = book_title_for("/root/books/Dune", "/root/books", None);
    assert_eq!(title, "Dune");
    let first = String::from("/root/books/standalone.mp3");
    let title2 = book_title_for("/root/books", "/root/books", Some(&first));
    assert_eq!(title2, "standalone");
    let title3 = book_title_for("/root/books", "/root/books", None);
    assert_eq!(title3, "Unknown Book");
}

#[test]
fn metadata_tags_override_title_and_author() {
    let mut book = Book::new(
        String::from("dir name"),
        String::from("Unknown Author"),
        String::from("/p"),
    );
    apply_metadata_tags(
        &mut book,
        Some(String::from("Tagged Title")),
        Some(String::from("Tagged Artist")),
        Some(String::from("Tagged Album")),
    );
    // the album tag wins over the title tag, as the tags are applied in order
    assert_eq!(book.title, "Tagged Album");
    assert_eq!(book.author, "Tagged Artist");

    let mut book2 = Book::new(String::from("kept"), String::from("kept too"), String::from("/p"));
    apply_metadata_tags(&mut book2, Some(String::new()), None, Some(String::new()));
    assert_eq!(book2.title, "kept");
    assert_eq!(book2.author, "kept too");
}

#[test]
fn chapter_names_fall_back_to_file_stems() {
    let files = vec![
        String::from("/b/one.mp3"),
        String::from("/b/two.m4a"),
    ];
    let names = chapter_names_from_files(&files);
    assert_eq!(names, vec![String::from("one"), String::from("two")]);
}

#[test]
fn book_counts_chapters() {
    let mut book = Book::new(String::from("t"), String::from("a"), String::from("/p"));
    assert_eq!(book.chapter_count(), 0);
    assert!(!book.has_chapters());
    book.chapters.push(String::from("one"));
    assert_eq!(book.chapter_count(), 1);
    assert!(book.has_chapters());
}
