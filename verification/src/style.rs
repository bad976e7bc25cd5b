//! Text styles and the set of styles that reports are printed with.
//!
//! A [`Style`] holds, as plain values, what a terminal style of the
//! `owo_colors` crate holds: a foreground colour, a background colour,
//! whether the text is bold, and its other text effects. Its builder methods
//! do what the methods of the same names on `owo_colors::Style` do.
use vstd::prelude::*;

verus! {

/// The sixteen ANSI colours and the terminal's default colour.
#[derive(Clone, Copy, Debug, PartialEq, Eq, Structural)]
pub enum AnsiColor {
    Black,
    Red,
    Green,
    Yellow,
    Blue,
    Magenta,
    Cyan,
    White,
    Default,
    BrightBlack,
    BrightRed,
    BrightGreen,
    BrightYellow,
    BrightBlue,
    BrightMagenta,
    BrightCyan,
    BrightWhite,
}

/// A colour chosen at run time.
#[derive(Clone, Copy, Debug, PartialEq, Eq, Structural)]
pub enum DynColor {
    /// One of the ANSI colours.
    Ansi(AnsiColor),
    /// One of the 256 xterm colours, by its number.
    Xterm(u8),
    /// A true colour.
    Rgb(u8, u8, u8),
}

/// The xterm colour number of "user bright red".
pub const XTERM_USER_BRIGHT_RED: u8 = 9;

/// The xterm colour number of "user bright cyan".
pub const XTERM_USER_BRIGHT_CYAN: u8 = 14;

/// A text style: colours and boldness.
#[derive(Clone, Copy, Debug, PartialEq, Eq, Structural)]
pub struct Style {
    /// Foreground colour; `None` leaves the terminal's colour unchanged.
    pub fg: Option<DynColor>,
    /// Background colour; `None` leaves the terminal's colour unchanged.
    pub bg: Option<DynColor>,
    /// Whether the text is bold.
    pub bold: bool,
    /// The other text effects.
    pub effects: Effects,
}

/// The text effects of a style other than boldness.
#[derive(Clone, Copy, Debug, PartialEq, Eq, Structural)]
pub struct Effects {
    pub dimmed: bool,
    pub italic: bool,
    pub underline: bool,
    pub blink: bool,
    pub blink_fast: bool,
    pub reversed: bool,
    pub hidden: bool,
    pub strikethrough: bool,
}

/// No text effect.
pub open spec fn no_effects() -> Effects {
    Effects {
        dimmed: false,
        italic: false,
        underline: false,
        blink: false,
        blink_fast: false,
        reversed: false,
        hidden: false,
        strikethrough: false,
    }
}

impl Effects {
    /// No text effect.
    pub fn none() -> (e: Effects)
        ensures
            e == no_effects(),
    {
        Effects {
            dimmed: false,
            italic: false,
            underline: false,
            blink: false,
            blink_fast: false,
            reversed: false,
            hidden: false,
            strikethrough: false,
        }
    }

    /// Whether any effect is set.
    pub fn any(&self) -> (r: bool)
        ensures
            r == (*self != no_effects()),
    {
        self.dimmed || self.italic || self.underline || self.blink || self.blink_fast
            || self.reversed || self.hidden || self.strikethrough
    }
}

/// The style that changes nothing.
pub open spec fn plain() -> Style {
    Style { fg: None, bg: None, bold: false, effects: no_effects() }
}

/// The plain style with the ANSI foreground colour `c`.
pub open spec fn fg_ansi(c: AnsiColor) -> Style {
    Style { fg: Some(DynColor::Ansi(c)), bg: None, bold: false, effects: no_effects() }
}

/// Helper to create a [`Style`]: the plain style.
pub fn style() -> (s: Style)
    ensures
        s == plain(),
{
    Style::new()
}

impl Style {
    /// The plain style.
    pub fn new() -> (s: Style)
        ensures
            s == plain(),
    {
        Style { fg: None, bg: None, bold: false, effects: Effects::none() }
    }

    /// Sets the foreground colour.
    pub fn color(self, color: DynColor) -> (s: Style)
        ensures
            s == (Style { fg: Some(color), ..self }),
    {
        Style { fg: Some(color), ..self }
    }

    /// Sets the background colour.
    pub fn on_color(self, color: DynColor) -> (s: Style)
        ensures
            s == (Style { bg: Some(color), ..self }),
    {
        Style { bg: Some(color), ..self }
    }

    /// Makes the text bold.
    pub fn bold(self) -> (s: Style)
        ensures
            s == (Style { bold: true, ..self }),
    {
        Style { bold: true, ..self }
    }

    /// Makes the text dimmed.
    pub fn dimmed(self) -> (s: Style)
        ensures
            s == (Style { effects: Effects { dimmed: true, ..self.effects }, ..self }),
    {
        Style { effects: Effects { dimmed: true, ..self.effects }, ..self }
    }

    /// Makes the text italic.
    pub fn italic(self) -> (s: Style)
        ensures
            s == (Style { effects: Effects { italic: true, ..self.effects }, ..self }),
    {
        Style { effects: Effects { italic: true, ..self.effects }, ..self }
    }

    /// Underlines the text.
    pub fn underline(self) -> (s: Style)
        ensures
            s == (Style { effects: Effects { underline: true, ..self.effects }, ..self }),
    {
        Style { effects: Effects { underline: true, ..self.effects }, ..self }
    }

    /// Makes the text blink.
    pub fn blink(self) -> (s: Style)
        ensures
            s == (Style { effects: Effects { blink: true, ..self.effects }, ..self }),
    {
        Style { effects: Effects { blink: true, ..self.effects }, ..self }
    }

    /// Makes the text blink fast.
    pub fn blink_fast(self) -> (s: Style)
        ensures
            s == (Style { effects: Effects { blink_fast: true, ..self.effects }, ..self }),
    {
        Style { effects: Effects { blink_fast: true, ..self.effects }, ..self }
    }

    /// Swaps the foreground and background colours.
    pub fn reversed(self) -> (s: Style)
        ensures
            s == (Style { effects: Effects { reversed: true, ..self.effects }, ..self }),
    {
        Style { effects: Effects { reversed: true, ..self.effects }, ..self }
    }

    /// Hides the text.
    pub fn hidden(self) -> (s: Style)
        ensures
            s == (Style { effects: Effects { hidden: true, ..self.effects }, ..self }),
    {
        Style { effects: Effects { hidden: true, ..self.effects }, ..self }
    }

    /// Strikes the text through.
    pub fn strikethrough(self) -> (s: Style)
        ensures
            s == (Style { effects: Effects { strikethrough: true, ..self.effects }, ..self }),
    {
        Style { effects: Effects { strikethrough: true, ..self.effects }, ..self }
    }

    /// Sets the foreground colour to red.
    pub fn red(self) -> (s: Style)
        ensures
            s == (Style { fg: Some(DynColor::Ansi(AnsiColor::Red)), ..self }),
    {
        self.color(DynColor::Ansi(AnsiColor::Red))
    }

    /// Sets the foreground colour to green.
    pub fn green(self) -> (s: Style)
        ensures
            s == (Style { fg: Some(DynColor::Ansi(AnsiColor::Green)), ..self }),
    {
        self.color(DynColor::Ansi(AnsiColor::Green))
    }

    /// Sets the foreground colour to blue.
    pub fn blue(self) -> (s: Style)
        ensures
            s == (Style { fg: Some(DynColor::Ansi(AnsiColor::Blue)), ..self }),
    {
        self.color(DynColor::Ansi(AnsiColor::Blue))
    }

    /// Sets the foreground colour to purple, which is ANSI magenta.
    pub fn purple(self) -> (s: Style)
        ensures
            s == (Style { fg: Some(DynColor::Ansi(AnsiColor::Magenta)), ..self }),
    {
        self.color(DynColor::Ansi(AnsiColor::Magenta))
    }

    /// Sets the foreground colour to cyan.
    pub fn cyan(self) -> (s: Style)
        ensures
            s == (Style { fg: Some(DynColor::Ansi(AnsiColor::Cyan)), ..self }),
    {
        self.color(DynColor::Ansi(AnsiColor::Cyan))
    }

    /// Sets the foreground colour to white.
    pub fn white(self) -> (s: Style)
        ensures
            s == (Style { fg: Some(DynColor::Ansi(AnsiColor::White)), ..self }),
    {
        self.color(DynColor::Ansi(AnsiColor::White))
    }

    /// Sets the foreground colour to bright black.
    pub fn bright_black(self) -> (s: Style)
        ensures
            s == (Style { fg: Some(DynColor::Ansi(AnsiColor::BrightBlack)), ..self }),
    {
        self.color(DynColor::Ansi(AnsiColor::BrightBlack))
    }

    /// Sets the foreground colour to bright red.
    pub fn bright_red(self) -> (s: Style)
        ensures
            s == (Style { fg: Some(DynColor::Ansi(AnsiColor::BrightRed)), ..self }),
    {
        self.color(DynColor::Ansi(AnsiColor::BrightRed))
    }

    /// Sets the foreground colour to bright yellow.
    pub fn bright_yellow(self) -> (s: Style)
        ensures
            s == (Style { fg: Some(DynColor::Ansi(AnsiColor::BrightYellow)), ..self }),
    {
        self.color(DynColor::Ansi(AnsiColor::BrightYellow))
    }

    /// Sets the foreground colour to bright cyan.
    pub fn bright_cyan(self) -> (s: Style)
        ensures
            s == (Style { fg: Some(DynColor::Ansi(AnsiColor::BrightCyan)), ..self }),
    {
        self.color(DynColor::Ansi(AnsiColor::BrightCyan))
    }
}

impl Default for Style {
    fn default() -> (s: Style)
        ensures
            s == plain(),
    {
        Style::new()
    }
}

/// The styles that reports are printed with.
#[derive(Clone, Copy, Debug, PartialEq, Eq, Structural)]
pub struct Styles {
    pub file: Style,
    pub line_number: Style,
    pub spantrace_target: Style,
    pub spantrace_fields: Style,
    pub active_line: Style,
    pub error: Style,
    pub help_info_note: Style,
    pub help_info_warning: Style,
    pub help_info_suggestion: Style,
    pub help_info_error: Style,
    pub dependency_code: Style,
    pub crate_code: Style,
    pub code_hash: Style,
    pub panic_header: Style,
    pub panic_message: Style,
    pub panic_file: Style,
    pub panic_line_number: Style,
    pub hidden_frames: Style,
}

/// Every style plain.
pub open spec fn blank_styles() -> Styles {
    Styles {
        file: plain(),
        line_number: plain(),
        spantrace_target: plain(),
        spantrace_fields: plain(),
        active_line: plain(),
        error: plain(),
        help_info_note: plain(),
        help_info_warning: plain(),
        help_info_suggestion: plain(),
        help_info_error: plain(),
        dependency_code: plain(),
        crate_code: plain(),
        code_hash: plain(),
        panic_header: plain(),
        panic_message: plain(),
        panic_file: plain(),
        panic_line_number: plain(),
        hidden_frames: plain(),
    }
}

/// The styles for a dark background.
pub open spec fn dark_styles() -> Styles {
    Styles {
        file: fg_ansi(AnsiColor::Magenta),
        line_number: fg_ansi(AnsiColor::Magenta),
        spantrace_target: Style {
            fg: Some(DynColor::Xterm(XTERM_USER_BRIGHT_RED)),
            bg: None,
            bold: false,
            effects: no_effects(),
        },
        spantrace_fields: Style {
            fg: Some(DynColor::Xterm(XTERM_USER_BRIGHT_CYAN)),
            bg: None,
            bold: false,
            effects: no_effects(),
        },
        active_line: Style { fg: Some(DynColor::Ansi(AnsiColor::White)), bg: None, bold: true, effects: no_effects() },
        error: fg_ansi(AnsiColor::BrightRed),
        help_info_note: fg_ansi(AnsiColor::BrightCyan),
        help_info_warning: fg_ansi(AnsiColor::BrightYellow),
        help_info_suggestion: fg_ansi(AnsiColor::BrightCyan),
        help_info_error: fg_ansi(AnsiColor::BrightRed),
        dependency_code: fg_ansi(AnsiColor::Green),
        crate_code: fg_ansi(AnsiColor::BrightRed),
        code_hash: fg_ansi(AnsiColor::BrightBlack),
        panic_header: fg_ansi(AnsiColor::Red),
        panic_message: fg_ansi(AnsiColor::Cyan),
        panic_file: fg_ansi(AnsiColor::Magenta),
        panic_line_number: fg_ansi(AnsiColor::Magenta),
        hidden_frames: fg_ansi(AnsiColor::BrightCyan),
    }
}

/// The styles for a light background.
pub open spec fn light_styles() -> Styles {
    Styles {
        file: fg_ansi(AnsiColor::Magenta),
        line_number: fg_ansi(AnsiColor::Magenta),
        spantrace_target: fg_ansi(AnsiColor::Red),
        spantrace_fields: fg_ansi(AnsiColor::Blue),
        active_line: Style { fg: None, bg: None, bold: true, effects: no_effects() },
        error: fg_ansi(AnsiColor::Red),
        help_info_note: fg_ansi(AnsiColor::Blue),
        help_info_warning: fg_ansi(AnsiColor::BrightRed),
        help_info_suggestion: fg_ansi(AnsiColor::Blue),
        help_info_error: fg_ansi(AnsiColor::Red),
        dependency_code: fg_ansi(AnsiColor::Green),
        crate_code: fg_ansi(AnsiColor::Red),
        code_hash: fg_ansi(AnsiColor::BrightBlack),
        panic_header: fg_ansi(AnsiColor::Red),
        panic_message: fg_ansi(AnsiColor::Blue),
        panic_file: fg_ansi(AnsiColor::Magenta),
        panic_line_number: fg_ansi(AnsiColor::Magenta),
        hidden_frames: fg_ansi(AnsiColor::Blue),
    }
}

/// The five styles that span traces are printed with.
#[derive(Clone, Copy, Debug, PartialEq, Eq, Structural)]
pub struct SpanTraceStyles {
    pub file: Style,
    pub line_number: Style,
    pub target: Style,
    pub fields: Style,
    pub active_line: Style,
}

impl Styles {
    /// Blank styles: every style plain.
    pub fn new() -> (s: Styles)
        ensures
            s == blank_styles(),
    {
        Styles {
            file: style(),
            line_number: style(),
            spantrace_target: style(),
            spantrace_fields: style(),
            active_line: style(),
            error: style(),
            help_info_note: style(),
            help_info_warning: style(),
            help_info_suggestion: style(),
            help_info_error: style(),
            dependency_code: style(),
            crate_code: style(),
            code_hash: style(),
            panic_header: style(),
            panic_message: style(),
            panic_file: style(),
            panic_line_number: style(),
            hidden_frames: style(),
        }
    }

    /// Styles for a dark background. This is the default.
    pub fn dark() -> (s: Styles)
        ensures
            s == dark_styles(),
    {
        Styles {
            file: style().purple(),
            line_number: style().purple(),
            active_line: style().white().bold(),
            error: style().bright_red(),
            help_info_note: style().bright_cyan(),
            help_info_warning: style().bright_yellow(),
            help_info_suggestion: style().bright_cyan(),
            help_info_error: style().bright_red(),
            dependency_code: style().green(),
            crate_code: style().bright_red(),
            code_hash: style().bright_black(),
            panic_header: style().red(),
            panic_message: style().cyan(),
            panic_file: style().purple(),
            panic_line_number: style().purple(),
            hidden_frames: style().bright_cyan(),
            spantrace_target: style().color(DynColor::Xterm(XTERM_USER_BRIGHT_RED)),
            spantrace_fields: style().color(DynColor::Xterm(XTERM_USER_BRIGHT_CYAN)),
        }
    }

    /// Styles for light backgrounds.
    pub fn light() -> (s: Styles)
        ensures
            s == light_styles(),
    {
        Styles {
            file: style().purple(),
            line_number: style().purple(),
            spantrace_target: style().red(),
            spantrace_fields: style().blue(),
            active_line: style().bold(),
            error: style().red(),
            help_info_note: style().blue(),
            help_info_warning: style().bright_red(),
            help_info_suggestion: style().blue(),
            help_info_error: style().red(),
            dependency_code: style().green(),
            crate_code: style().red(),
            code_hash: style().bright_black(),
            panic_header: style().red(),
            panic_message: style().blue(),
            panic_file: style().purple(),
            panic_line_number: style().purple(),
            hidden_frames: style().blue(),
        }
    }

    /// Styles printed paths.
    pub fn file(self, style: Style) -> (s: Styles)
        ensures
            s == (Styles { file: style, ..self }),
    {
        Styles { file: style, ..self }
    }

    /// Styles the line number of a file.
    pub fn line_number(self, style: Style) -> (s: Styles)
        ensures
            s == (Styles { line_number: style, ..self }),
    {
        Styles { line_number: style, ..self }
    }

    /// Styles the span trace target (the module and function name, and so on).
    pub fn spantrace_target(self, style: Style) -> (s: Styles)
        ensures
            s == (Styles { spantrace_target: style, ..self }),
    {
        Styles { spantrace_target: style, ..self }
    }

    /// Styles the fields of a span (the arguments of functions and methods).
    pub fn spantrace_fields(self, style: Style) -> (s: Styles)
        ensures
            s == (Styles { spantrace_fields: style, ..self }),
    {
        Styles { spantrace_fields: style, ..self }
    }

    /// Styles the selected line of displayed code.
    pub fn active_line(self, style: Style) -> (s: Styles)
        ensures
            s == (Styles { active_line: style, ..self }),
    {
        Styles { active_line: style, ..self }
    }

    /// Styles the error printed by the error report handler.
    pub fn error(self, style: Style) -> (s: Styles)
        ensures
            s == (Styles { error: style, ..self }),
    {
        Styles { error: style, ..self }
    }

    /// Styles the "note" section header.
    pub fn help_info_note(self, style: Style) -> (s: Styles)
        ensures
            s == (Styles { help_info_note: style, ..self }),
    {
        Styles { help_info_note: style, ..self }
    }

    /// Styles the "warning" section header.
    pub fn help_info_warning(self, style: Style) -> (s: Styles)
        ensures
            s == (Styles { help_info_warning: style, ..self }),
    {
        Styles { help_info_warning: style, ..self }
    }

    /// Styles the "suggestion" section header.
    pub fn help_info_suggestion(self, style: Style) -> (s: Styles)
        ensures
            s == (Styles { help_info_suggestion: style, ..self }),
    {
        Styles { help_info_suggestion: style, ..self }
    }

    /// Styles the "error" section header.
    pub fn help_info_error(self, style: Style) -> (s: Styles)
        ensures
            s == (Styles { help_info_error: style, ..self }),
    {
        Styles { help_info_error: style, ..self }
    }

    /// Styles code that is not part of your crate.
    pub fn dependency_code(self, style: Style) -> (s: Styles)
        ensures
            s == (Styles { dependency_code: style, ..self }),
    {
        Styles { dependency_code: style, ..self }
    }

    /// Styles code that is in your crate.
    pub fn crate_code(self, style: Style) -> (s: Styles)
        ensures
            s == (Styles { crate_code: style, ..self }),
    {
        Styles { crate_code: style, ..self }
    }

    /// Styles the hash after `dependency_code` and `crate_code`.
    pub fn code_hash(self, style: Style) -> (s: Styles)
        ensures
            s == (Styles { code_hash: style, ..self }),
    {
        Styles { code_hash: style, ..self }
    }

    /// Styles the header of a panic.
    pub fn panic_header(self, style: Style) -> (s: Styles)
        ensures
            s == (Styles { panic_header: style, ..self }),
    {
        Styles { panic_header: style, ..self }
    }

    /// Styles the message of a panic.
    pub fn panic_message(self, style: Style) -> (s: Styles)
        ensures
            s == (Styles { panic_message: style, ..self }),
    {
        Styles { panic_message: style, ..self }
    }

    /// Styles the paths of a panic.
    pub fn panic_file(self, style: Style) -> (s: Styles)
        ensures
            s == (Styles { panic_file: style, ..self }),
    {
        Styles { panic_file: style, ..self }
    }

    /// Styles the line numbers of a panic.
    pub fn panic_line_number(self, style: Style) -> (s: Styles)
        ensures
            s == (Styles { panic_line_number: style, ..self }),
    {
        Styles { panic_line_number: style, ..self }
    }

    /// Styles the "N frames hidden" message.
    pub fn hidden_frames(self, style: Style) -> (s: Styles)
        ensures
            s == (Styles { hidden_frames: style, ..self }),
    {
        Styles { hidden_frames: style, ..self }
    }

    /// The styles that span traces are printed with: `file`, `line_number`,
    /// `spantrace_target`, `spantrace_fields` and `active_line`.
    pub fn spantrace_styles(&self) -> (s: SpanTraceStyles)
        ensures
            s == (SpanTraceStyles {
                file: self.file,
                line_number: self.line_number,
                target: self.spantrace_target,
                fields: self.spantrace_fields,
                active_line: self.active_line,
            }),
    {
        SpanTraceStyles {
            file: self.file,
            line_number: self.line_number,
            target: self.spantrace_target,
            fields: self.spantrace_fields,
            active_line: self.active_line,
        }
    }
}

impl Default for Styles {
    fn default() -> (s: Styles)
        ensures
            s == blank_styles(),
    {
        Styles::new()
    }
}

} // verus!
