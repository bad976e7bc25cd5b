use color_eyre::render::{default_panic_message, ends_in_hash, source_section_texts, source_window, source_window_start};
use color_eyre::{Frame, Style, StyledText, Styles, Verbosity};

fn joined(texts: &[StyledText]) -> String {
    texts.iter().map(|t| t.text.as_str()).collect()
}

fn parts(texts: &[StyledText]) -> Vec<(String, Option<Style>)> {
    texts.iter().map(|t| (t.text.clone(), t.style)).collect()
}

#[test]
fn a_hashed_name_is_split_before_its_hash() {
    let s = Styles::dark();
    let f = Frame::new(3, Some("my_crate::run::h0123456789abcdef".to_string()), Some(42), Some("src/lib.rs".to_string()), true, s);
    let texts = f.display_texts();
    assert_eq!(
        parts(&texts),
        vec![
            (" 3: ".to_string(), None),
            ("my_crate::run".to_string(), Some(s.crate_code)),
            ("::h0123456789abcdef".to_string(), Some(s.code_hash)),
            ("\n    at ".to_string(), None),
            ("src/lib.rs".to_string(), Some(s.file)),
            (":".to_string(), None),
            ("42".to_string(), Some(s.line_number)),
        ]
    );
}

#[test]
fn a_hashed_dependency_name_uses_the_dependency_style() {
    let s = Styles::dark();
    let f = Frame::new(12, Some("std::rt::x::hABCDEF0123456789".to_string()), None, Some("/rustc/x.rs".to_string()), true, s);
    let texts = f.display_texts();
    assert_eq!(texts[0].text, "12: ");
    assert_eq!(texts[1].style, Some(s.dependency_code));
    assert_eq!(texts[1].text, "std::rt::x");
    assert_eq!(texts[6].text, "<unknown line>");
    assert_eq!(joined(&texts), "12: std::rt::x::hABCDEF0123456789\n    at /rustc/x.rs:<unknown line>");
}

#[test]
fn a_name_without_hash_prints_plain() {
    let f = Frame::new(1, Some("my_crate::run::hxyz".to_string()), None, None, true, Styles::dark());
    let texts = f.display_texts();
    assert_eq!(parts(&texts)[1], ("my_crate::run::hxyz".to_string(), None));
    assert_eq!(joined(&texts), " 1: my_crate::run::hxyz\n    at <unknown source file>");
    let g = Frame::new(100, None, None, None, true, Styles::dark());
    assert_eq!(joined(&g.display_texts()), "100: <unknown>\n    at <unknown source file>");
}

#[test]
fn hash_detection_needs_sixteen_hex_digits() {
    assert!(ends_in_hash(b"a::h0123456789abcdef"));
    assert!(!ends_in_hash(b"::h0123456789abcdef"));
    assert!(!ends_in_hash(b"a::h0123456789abcdeg"));
    assert!(!ends_in_hash(b"a::x0123456789abcdef"));
}

#[test]
fn the_source_window_starts_two_lines_before() {
    assert_eq!(source_window_start(1), 1);
    assert_eq!(source_window_start(2), 1);
    assert_eq!(source_window_start(3), 1);
    assert_eq!(source_window_start(10), 8);
}

#[test]
fn the_active_source_line_is_marked() {
    let s = Styles::dark();
    let mut lines: Vec<Option<String>> = vec![None; 6];
    lines.extend(["a", "b", "c"].iter().map(|l| Some(l.to_string())));
    let texts = source_section_texts(9, &lines, &s);
    assert_eq!(
        joined(&texts),
        format!("\n{:>8} │ a\n{:>8} │ b\n{:>8} > c", 7, 8, 9)
    );
    let active: Vec<&StyledText> = texts.iter().filter(|t| t.style == Some(s.active_line)).collect();
    assert_eq!(active.len(), 3);
    assert_eq!(active[0].text, "       9");
    assert_eq!(active[1].text, ">");
    assert_eq!(active[2].text, "c");
    assert!(source_section_texts(9, &Vec::new(), &s).is_empty());
}

#[test]
fn the_default_panic_message_shows_payload_and_location() {
    let s = Styles::dark();
    let texts = default_panic_message(&s, Some("boom"), Some(("src/main.rs", 3)));
    assert_eq!(
        joined(&texts),
        "The application panicked (crashed).\nMessage:  boom\nLocation: src/main.rs:3"
    );
    assert_eq!(texts[0].style, Some(s.panic_header));
    assert_eq!(texts[3].style, Some(s.panic_message));
    let texts = default_panic_message(&s, None, None);
    assert_eq!(
        joined(&texts),
        "The application panicked (crashed).\nMessage:  <non string panic payload>\nLocation: <unknown>"
    );
}

#[test]
fn a_seven_line_file_at_line_one_shows_its_first_five_lines() {
    let s = Styles::new();
    let lines: Vec<Option<String>> =
        ["a", "b", "c", "d", "e", "f", "g"].iter().map(|l| Some(l.to_string())).collect();
    assert_eq!(source_window(1), (1, 5));
    let texts = source_section_texts(1, &lines, &s);
    assert_eq!(
        joined(&texts),
        "\n       1 > a\n       2 │ b\n       3 │ c\n       4 │ d\n       5 │ e"
    );
}

#[test]
fn the_window_shows_at_most_five_lines_and_stops_at_the_end_of_the_file() {
    let s = Styles::new();
    let lines: Vec<Option<String>> = (1..=20).map(|i| Some(format!("l{}", i))).collect();
    assert_eq!(source_window(10), (8, 5));
    assert_eq!(
        joined(&source_section_texts(10, &lines, &s)),
        "\n       8 │ l8\n       9 │ l9\n      10 > l10\n      11 │ l11\n      12 │ l12"
    );
    assert_eq!(
        joined(&source_section_texts(19, &lines, &s)),
        "\n      17 │ l17\n      18 │ l18\n      19 > l19\n      20 │ l20"
    );
    // Lines before the window need not have been read.
    let mut partial: Vec<Option<String>> = vec![None; 7];
    partial.extend((8..=12).map(|i| Some(format!("l{}", i))));
    assert_eq!(joined(&source_section_texts(10, &partial, &s)), joined(&source_section_texts(10, &lines, &s)));
}

#[test]
fn a_path_that_is_not_unicode_prints_as_bad_utf8() {
    let s = Styles::dark();
    let f = Frame::new(2, Some("main".to_string()), Some(5), Some("src/\u{fffd}.rs".to_string()), false, s);
    assert_eq!(joined(&f.display_texts()), " 2: main\n    at <bad utf8>:5");
    assert_eq!(f.display_texts()[3].style, Some(s.file));
}

#[test]
fn the_source_follows_the_frame_only_at_full_verbosity() {
    let s = Styles::new();
    let f = Frame::new(1, Some("main".to_string()), Some(2), Some("src/main.rs".to_string()), true, s);
    let lines: Vec<Option<String>> = vec![Some("fn main() {".to_string()), Some("    run();".to_string())];
    assert_eq!(
        joined(&f.texts_with_source(Verbosity::Full, Some(&lines))),
        " 1: main\n    at src/main.rs:2\n       1 │ fn main() {\n       2 >     run();"
    );
    assert_eq!(
        joined(&f.texts_with_source(Verbosity::Medium, Some(&lines))),
        " 1: main\n    at src/main.rs:2"
    );
    assert_eq!(joined(&f.texts_with_source(Verbosity::Full, None)), " 1: main\n    at src/main.rs:2");
}
