use color_eyre::backtrace::{backtrace_texts, empty_backtrace_texts, hidden_frames_text};
use color_eyre::report::{indent_string, indent_texts, panic_report_texts, texts_print_something};
use color_eyre::{style, BacktraceLine, Style, StyledText, Styles};

fn plain(s: &str) -> StyledText {
    StyledText { text: s.to_string(), style: None }
}

fn styled(s: &str, st: Style) -> StyledText {
    StyledText { text: s.to_string(), style: Some(st) }
}

fn parts(texts: &[StyledText]) -> Vec<(String, Option<Style>)> {
    texts.iter().map(|t| (t.text.clone(), t.style)).collect()
}

fn joined(texts: &[StyledText]) -> String {
    texts.iter().map(|t| t.text.as_str()).collect()
}

#[test]
fn every_line_with_text_gets_two_spaces() {
    assert_eq!(indent_string(&"a\nb\n\nc\n".to_string(), true), "  a\n  b\n\n  c\n");
    assert_eq!(indent_string(&"a\nb".to_string(), false), "a\n  b");
    assert_eq!(indent_string(&"".to_string(), true), "");
    assert_eq!(indent_string(&"\n\n".to_string(), true), "\n\n");
}

#[test]
fn indenting_plain_texts_carries_the_line_start_across_texts() {
    let texts = vec![plain("ab"), plain("\n"), plain(""), plain("cd\n"), plain("e")];
    let out = indent_texts(&texts);
    assert_eq!(joined(&out), "  ab\n  cd\n  e");
}

#[test]
fn a_styled_text_at_a_line_start_is_indented_before_its_codes() {
    let red = style().red();
    let texts = vec![styled("x\ny\n", red), plain("z")];
    let out = indent_texts(&texts);
    assert_eq!(
        parts(&out),
        vec![
            ("  ".to_string(), None),
            ("x\n  y\n  ".to_string(), Some(red)),
            ("z".to_string(), None),
        ]
    );
    // A style that changes nothing writes no codes: it is indented as plain text.
    let out = indent_texts(&vec![plain("\n"), styled("w", style())]);
    assert_eq!(parts(&out), vec![("\n".to_string(), None), ("  w".to_string(), Some(style()))]);
}

#[test]
fn whether_texts_print_anything() {
    assert!(!texts_print_something(&vec![plain(""), styled("", style())]));
    assert!(texts_print_something(&vec![plain(""), styled("", style().bold())]));
    assert!(texts_print_something(&vec![plain("a")]));
}

#[test]
fn the_report_puts_a_blank_line_before_each_section_that_prints() {
    let message = vec![plain("The application panicked (crashed).")];
    let backtrace = vec![plain("BT\n"), plain("frame")];
    let texts = panic_report_texts(
        message,
        Some("custom".to_string()),
        Some("".to_string()),
        Some(backtrace),
        Some("env".to_string()),
        None,
    );
    assert_eq!(joined(&texts), "The application panicked (crashed).\n\ncustom\n\n  BT\n  frame\n\nenv");
}

#[test]
fn a_report_without_sections_is_its_message() {
    let texts = panic_report_texts(vec![plain("m")], None, None, None, None, None);
    assert_eq!(joined(&texts), "m");
    let texts = panic_report_texts(Vec::new(), None, Some("span".to_string()), None, None, Some("issue".to_string()));
    assert_eq!(joined(&texts), "\n\nspan\n\nissue");
}

#[test]
fn the_indented_backtrace_section_of_a_report() {
    let s = Styles::dark();
    let lines = vec![BacktraceLine::Hidden(2), BacktraceLine::Shown(0)];
    let shown = vec![vec![plain(" 3: main")]];
    let bt = backtrace_texts(&lines, &shown, &s);
    let texts = panic_report_texts(Vec::new(), None, None, Some(bt), None, None);
    let expected = format!(
        "\n\n  {}\n  {}\n   3: main",
        format!("{:━^80}", " BACKTRACE "),
        format!("{:^80}", "⋮ 2 frames hidden ⋮")
    );
    assert_eq!(joined(&texts), expected);
    let empty = panic_report_texts(Vec::new(), None, None, Some(empty_backtrace_texts()), None, None);
    assert_eq!(joined(&empty), format!("\n\n  {}\n  <empty backtrace>", format!("{:━^80}", " BACKTRACE ")));
}

#[test]
fn the_hidden_frames_line_has_its_style() {
    let s = Styles::dark();
    let t = hidden_frames_text(3, &s);
    assert_eq!(t.text, format!("{:^80}", "⋮ 3 frames hidden ⋮"));
    assert_eq!(t.style, Some(s.hidden_frames));
}

#[test]
fn an_effect_alone_writes_codes() {
    let italic = style().italic();
    let out = indent_texts(&vec![styled("q", italic)]);
    assert_eq!(parts(&out), vec![("  ".to_string(), None), ("q".to_string(), Some(italic))]);
}
