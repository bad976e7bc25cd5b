use color_eyre::style::{XTERM_USER_BRIGHT_CYAN, XTERM_USER_BRIGHT_RED};
use color_eyre::{style, AnsiColor, DynColor, Effects, Style, Styles};

fn fg(c: AnsiColor) -> Style {
    Style { fg: Some(DynColor::Ansi(c)), bg: None, bold: false, effects: Effects::none() }
}

#[test]
fn plain_style_has_no_colour_and_is_not_bold() {
    let s = style();
    assert_eq!(s, Style { fg: None, bg: None, bold: false, effects: Effects::none() });
    assert_eq!(Style::new(), s);
    assert_eq!(Style::default(), s);
}

#[test]
fn purple_is_ansi_magenta() {
    assert_eq!(style().purple(), fg(AnsiColor::Magenta));
}

#[test]
fn colour_setters_keep_boldness_and_background() {
    let s = style().on_color(DynColor::Rgb(1, 2, 3)).bold().red();
    assert_eq!(
        s,
        Style { fg: Some(DynColor::Ansi(AnsiColor::Red)), bg: Some(DynColor::Rgb(1, 2, 3)), bold: true, effects: Effects::none() }
    );
    assert_eq!(s.green().fg, Some(DynColor::Ansi(AnsiColor::Green)));
    assert_eq!(s.blue().fg, Some(DynColor::Ansi(AnsiColor::Blue)));
    assert_eq!(s.cyan().fg, Some(DynColor::Ansi(AnsiColor::Cyan)));
    assert_eq!(s.white().fg, Some(DynColor::Ansi(AnsiColor::White)));
    assert_eq!(s.bright_black().fg, Some(DynColor::Ansi(AnsiColor::BrightBlack)));
    assert_eq!(s.bright_red().fg, Some(DynColor::Ansi(AnsiColor::BrightRed)));
    assert_eq!(s.bright_yellow().fg, Some(DynColor::Ansi(AnsiColor::BrightYellow)));
    assert_eq!(s.bright_cyan().fg, Some(DynColor::Ansi(AnsiColor::BrightCyan)));
    assert_eq!(s.color(DynColor::Xterm(200)).fg, Some(DynColor::Xterm(200)));
}

#[test]
fn blank_styles_are_plain() {
    let s = Styles::new();
    assert_eq!(s.file, style());
    assert_eq!(s.hidden_frames, style());
    assert_eq!(Styles::default(), s);
}

#[test]
fn dark_styles_match_the_dark_theme() {
    let s = Styles::dark();
    assert_eq!(s.file, fg(AnsiColor::Magenta));
    assert_eq!(s.line_number, fg(AnsiColor::Magenta));
    assert_eq!(s.active_line, Style { fg: Some(DynColor::Ansi(AnsiColor::White)), bg: None, bold: true, effects: Effects::none() });
    assert_eq!(s.error, fg(AnsiColor::BrightRed));
    assert_eq!(s.help_info_note, fg(AnsiColor::BrightCyan));
    assert_eq!(s.help_info_warning, fg(AnsiColor::BrightYellow));
    assert_eq!(s.help_info_suggestion, fg(AnsiColor::BrightCyan));
    assert_eq!(s.help_info_error, fg(AnsiColor::BrightRed));
    assert_eq!(s.dependency_code, fg(AnsiColor::Green));
    assert_eq!(s.crate_code, fg(AnsiColor::BrightRed));
    assert_eq!(s.code_hash, fg(AnsiColor::BrightBlack));
    assert_eq!(s.panic_header, fg(AnsiColor::Red));
    assert_eq!(s.panic_message, fg(AnsiColor::Cyan));
    assert_eq!(s.panic_file, fg(AnsiColor::Magenta));
    assert_eq!(s.panic_line_number, fg(AnsiColor::Magenta));
    assert_eq!(s.hidden_frames, fg(AnsiColor::BrightCyan));
    assert_eq!(s.spantrace_target.fg, Some(DynColor::Xterm(XTERM_USER_BRIGHT_RED)));
    assert_eq!(s.spantrace_fields.fg, Some(DynColor::Xterm(XTERM_USER_BRIGHT_CYAN)));
    assert_eq!(XTERM_USER_BRIGHT_RED, 9);
    assert_eq!(XTERM_USER_BRIGHT_CYAN, 14);
}

#[test]
fn light_styles_match_the_light_theme() {
    let s = Styles::light();
    assert_eq!(s.spantrace_target, fg(AnsiColor::Red));
    assert_eq!(s.spantrace_fields, fg(AnsiColor::Blue));
    assert_eq!(s.active_line, Style { fg: None, bg: None, bold: true, effects: Effects::none() });
    assert_eq!(s.help_info_warning, fg(AnsiColor::BrightRed));
    assert_eq!(s.crate_code, fg(AnsiColor::Red));
    assert_eq!(s.hidden_frames, fg(AnsiColor::Blue));
    assert_eq!(s.code_hash, fg(AnsiColor::BrightBlack));
}

#[test]
fn a_style_setter_changes_only_its_own_field() {
    let red = style().red();
    let s = Styles::dark().file(red);
    let mut expected = Styles::dark();
    expected.file = red;
    assert_eq!(s, expected);
    let s = Styles::dark().hidden_frames(red).panic_line_number(red).code_hash(red);
    assert_eq!(s.hidden_frames, red);
    assert_eq!(s.panic_line_number, red);
    assert_eq!(s.code_hash, red);
    assert_eq!(s.panic_file, Styles::dark().panic_file);
    let s = Styles::new()
        .line_number(red)
        .spantrace_target(red)
        .spantrace_fields(red)
        .active_line(red)
        .error(red)
        .help_info_note(red)
        .help_info_warning(red)
        .help_info_suggestion(red)
        .help_info_error(red)
        .dependency_code(red)
        .crate_code(red)
        .panic_header(red)
        .panic_message(red)
        .panic_file(red);
    assert_eq!(s.file, style());
    assert_eq!(s.line_number, red);
    assert_eq!(s.panic_file, red);
    assert_eq!(s.help_info_error, red);
}

#[test]
fn span_trace_styles_take_the_five_span_trace_fields() {
    let s = Styles::dark();
    let t = s.spantrace_styles();
    assert_eq!(t.file, s.file);
    assert_eq!(t.line_number, s.line_number);
    assert_eq!(t.target, s.spantrace_target);
    assert_eq!(t.fields, s.spantrace_fields);
    assert_eq!(t.active_line, s.active_line);
}

#[test]
fn effect_setters_add_one_effect_and_keep_the_rest() {
    let s = style().red().italic().underline();
    assert_eq!(s.fg, Some(DynColor::Ansi(AnsiColor::Red)));
    assert!(s.effects.italic && s.effects.underline);
    assert!(!s.effects.dimmed && !s.effects.strikethrough && !s.bold);
    assert!(s.effects.any());
    assert!(!style().effects.any());
    let all = style().dimmed().blink().blink_fast().reversed().hidden().strikethrough();
    assert_eq!(
        all.effects,
        Effects {
            dimmed: true,
            italic: false,
            underline: false,
            blink: true,
            blink_fast: true,
            reversed: true,
            hidden: true,
            strikethrough: true,
        }
    );
}
