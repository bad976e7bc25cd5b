//! What a frame, the source around it and a panic message print: a list of
//! texts, each with the style it is printed in.
use vstd::prelude::*;
use vstd::utf8::{
    decode_utf8, decode_utf8_split, encode_utf8, encode_utf8_decode_utf8, encode_utf8_valid_utf8,
    is_char_boundary,
};
use crate::frame::Frame;
use crate::style::{Style, Styles};
use crate::verbosity::Verbosity;
use crate::text::{decimal, decimal_digits, pad_left, right_align, string_of};

verus! {

broadcast use vstd::string::group_string_axioms;

/// A text and the style it is printed in; `None` prints it unstyled.
#[derive(Debug)]
pub struct StyledText {
    pub text: String,
    pub style: Option<Style>,
}

/// The characters and styles of a list of styled texts.
pub open spec fn styled_view(texts: Seq<StyledText>) -> Seq<(Seq<char>, Option<Style>)> {
    texts.map_values(|t: StyledText| (t.text@, t.style))
}

pub(crate) fn styled(text: String, style: Option<Style>) -> (t: StyledText)
    ensures
        t.text@ == text@,
        t.style == style,
{
    StyledText { text, style }
}

pub(crate) fn plain_text(s: &str) -> (t: StyledText)
    ensures
        t.text@ == s@,
        t.style is None,
{
    StyledText { text: string_of(s), style: None }
}

/// The characters of the texts, one after another, without their styles.
pub open spec fn plain_content(texts: Seq<(Seq<char>, Option<Style>)>) -> Seq<char>
    decreases texts.len(),
{
    if texts.len() == 0 {
        Seq::<char>::empty()
    } else {
        plain_content(texts.drop_last()) + texts.last().0
    }
}

/// `b` is an ASCII hexadecimal digit, in either case.
pub open spec fn is_hex_digit(b: u8) -> bool {
    (48 <= b <= 57) || (97 <= b <= 102) || (65 <= b <= 70)
}

/// The symbol name, encoded in `bytes`, ends in "::h" and sixteen
/// hexadecimal digits.
pub open spec fn has_hash_suffix(bytes: Seq<u8>) -> bool {
    let len = bytes.len() as int;
    &&& len > 19
    &&& bytes[len - 19] == 58u8
    &&& bytes[len - 18] == 58u8
    &&& bytes[len - 17] == 104u8
    &&& forall|i: int| len - 16 <= i < len ==> is_hex_digit(#[trigger] bytes[i])
}

/// Where the name is longer than 19 bytes, its last 19 and its last 16
/// bytes start at character boundaries, so that the name can be cut there.
pub open spec fn name_cuts_cleanly(bytes: Seq<u8>) -> bool {
    bytes.len() > 19 ==> is_char_boundary(bytes, bytes.len() - 19) && is_char_boundary(
        bytes,
        bytes.len() - 16,
    )
}

/// The name a frame is printed with.
pub open spec fn shown_name(f: &Frame) -> Seq<char> {
    match f.name {
        Some(name) => name@,
        None => "<unknown>"@,
    }
}

/// The style of the part of a name before its hash.
pub open spec fn name_style(f: &Frame) -> Style {
    if f.spec_is_dependency_code() {
        f.styles.dependency_code
    } else {
        f.styles.crate_code
    }
}

/// What the name of a frame prints: a name with a hash suffix in two
/// parts, the part before the hash in the style of dependency or crate
/// code and the hash in the hash style; any other name unstyled.
pub open spec fn name_texts(f: &Frame) -> Seq<(Seq<char>, Option<Style>)> {
    let bytes = encode_utf8(shown_name(f));
    let cut = bytes.len() - 19;
    if has_hash_suffix(bytes) {
        seq![
            (decode_utf8(bytes.subrange(0, cut)), Some(name_style(f))),
            (decode_utf8(bytes.subrange(cut, bytes.len() as int)), Some(f.styles.code_hash)),
        ]
    } else {
        seq![(shown_name(f), None)]
    }
}

/// A frame's name prints as the name itself: splitting it before its hash
/// neither drops nor adds a character.
pub proof fn name_texts_spell_the_name(f: &Frame)
    requires
        name_cuts_cleanly(encode_utf8(shown_name(f))),
    ensures
        plain_content(name_texts(f)) == shown_name(f),
{
    let texts = name_texts(f);
    let bytes = encode_utf8(shown_name(f));
    reveal_with_fuel(plain_content, 3);
    if has_hash_suffix(bytes) {
        let cut = bytes.len() - 19;
        encode_utf8_valid_utf8(shown_name(f));
        encode_utf8_decode_utf8(shown_name(f));
        decode_utf8_split(bytes, cut);
        assert(texts.drop_last().drop_last() =~= Seq::<(Seq<char>, Option<Style>)>::empty());
        assert(plain_content(texts) =~= decode_utf8(bytes.subrange(0, cut)) + decode_utf8(
            bytes.subrange(cut, bytes.len() as int),
        ));
    } else {
        assert(texts.drop_last() =~= Seq::<(Seq<char>, Option<Style>)>::empty());
        assert(plain_content(texts) =~= shown_name(f));
    }
}

/// How a frame's source file path prints: the path, or "<bad utf8>" where
/// it is not valid Unicode.
pub open spec fn shown_path(f: &Frame, file: Seq<char>) -> Seq<char> {
    if f.filename_is_unicode {
        file
    } else {
        "<bad utf8>"@
    }
}

/// What the location of a frame prints.
pub open spec fn location_texts(f: &Frame) -> Seq<(Seq<char>, Option<Style>)> {
    match f.filename {
        Some(file) => seq![
            ("\n    at "@, None),
            (shown_path(f, file@), Some(f.styles.file)),
            (":"@, None),
            (
                match f.lineno {
                    Some(l) => decimal_digits(l as nat),
                    None => "<unknown line>"@,
                },
                Some(f.styles.line_number),
            ),
        ],
        None => seq![("\n    at <unknown source file>"@, None)],
    }
}

/// What a frame prints, before its source: its number right-aligned in two
/// columns, its name and its location.
pub open spec fn frame_texts(f: &Frame) -> Seq<(Seq<char>, Option<Style>)> {
    seq![(pad_left(decimal_digits(f.n as nat), 2) + ": "@, None)] + name_texts(f) + location_texts(
        f,
    )
}

/// Whether the symbol name, encoded in `bytes`, ends in a hash.
pub fn ends_in_hash(bytes: &[u8]) -> (r: bool)
    ensures
        r == has_hash_suffix(bytes@),
{
    let len = bytes.len();
    if len <= 19 {
        return false;
    }
    if bytes[len - 19] != 58u8 || bytes[len - 18] != 58u8 || bytes[len - 17] != 104u8 {
        return false;
    }
    let mut i = len - 16;
    while i < len
        invariant
            len == bytes@.len(),
            len > 19,
            len - 16 <= i <= len,
            forall|j: int| len - 16 <= j < i ==> is_hex_digit(#[trigger] bytes@[j]),
        decreases len - i,
    {
        let b = bytes[i];
        if !((48u8 <= b && b <= 57u8) || (97u8 <= b && b <= 102u8) || (65u8 <= b && b <= 70u8)) {
            return false;
        }
        i = i + 1;
    }
    true
}

impl Frame {
    /// What this frame prints, before its source: its number, its name,
    /// split before a hash suffix, and its location.
    pub fn display_texts(&self) -> (texts: Vec<StyledText>)
        requires
            name_cuts_cleanly(encode_utf8(shown_name(self))),
        ensures
            styled_view(texts@) == frame_texts(self),
    {
        let mut texts: Vec<StyledText> = Vec::new();
        let mut index = right_align(decimal(self.n as u64).as_str(), 2);
        index.append(": ");
        texts.push(styled(index, None));
        let ghost after_index = texts@;

        let name: &str = match &self.name {
            Some(name) => name.as_str(),
            None => "<unknown>",
        };
        assert(name@ == shown_name(self));
        let bytes = name.as_bytes();
        if ends_in_hash(bytes) {
            let cut = bytes.len() - 19;
            let (head, hash) = name.split_at(cut);
            proof {
                encode_utf8_decode_utf8(head@);
                encode_utf8_decode_utf8(hash@);
            }
            let style = if self.is_dependency_code() {
                self.styles.dependency_code
            } else {
                self.styles.crate_code
            };
            texts.push(styled(string_of(head), Some(style)));
            texts.push(styled(string_of(hash), Some(self.styles.code_hash)));
        } else {
            texts.push(styled(string_of(name), None));
        }
        let ghost after_name = texts@;
        assert(styled_view(after_name) =~= styled_view(after_index) + name_texts(self));

        match &self.filename {
            Some(file) => {
                texts.push(plain_text("\n    at "));
                let path = if self.filename_is_unicode {
                    string_of(file.as_str())
                } else {
                    string_of("<bad utf8>")
                };
                texts.push(styled(path, Some(self.styles.file)));
                texts.push(plain_text(":"));
                let line = match self.lineno {
                    Some(l) => decimal(l as u64),
                    None => string_of("<unknown line>"),
                };
                texts.push(styled(line, Some(self.styles.line_number)));
            },
            None => {
                texts.push(plain_text("\n    at <unknown source file>"));
            },
        }
        assert(styled_view(texts@) =~= frame_texts(self));
        texts
    }
}

/// The number of the first line of source shown around line `lineno`: two
/// lines before it, or line 1.
pub open spec fn window_start(lineno: u32) -> int {
    if lineno - 1 < 2 {
        1
    } else {
        lineno - 2
    }
}

/// What one line of source prints: the line with the frame's line number
/// in the active-line style, marked with ">"; any other line unstyled,
/// after a "│".
pub open spec fn source_line_texts(lineno: u32, n: int, line: Seq<char>, active: Style) -> Seq<
    (Seq<char>, Option<Style>),
> {
    if n == lineno {
        seq![
            (pad_left(decimal_digits(n as nat), 8), Some(active)),
            (" "@, None),
            (">"@, Some(active)),
            (" "@, None),
            (line, Some(active)),
        ]
    } else {
        seq![(pad_left(decimal_digits(n as nat), 8) + " │ "@ + line, None)]
    }
}

/// What the source lines print, the first of them numbered `start`: each
/// on a new line.
pub open spec fn source_texts(lineno: u32, start: int, lines: Seq<Seq<char>>, active: Style) -> Seq<
    (Seq<char>, Option<Style>),
>
    decreases lines.len(),
{
    if lines.len() == 0 {
        seq![]
    } else {
        source_texts(lineno, start, lines.drop_last(), active) + seq![("\n"@, None)]
            + source_line_texts(lineno, start + lines.len() - 1, lines.last(), active)
    }
}

/// The number of lines a source section shows, at most.
pub open spec fn window_size() -> int {
    5
}

/// The positions, in the list of a file's lines counted from 0, of the
/// first line shown around line `lineno` and of the line after the last one
/// shown: five lines from the window's start, cut off at the end of the
/// `len` lines that were read.
pub open spec fn window_bounds(lineno: u32, len: int) -> (int, int) {
    let first = window_start(lineno) - 1;
    let from = if first < len { first } else { len };
    let to = if first + window_size() < len { first + window_size() } else { len };
    (from, to)
}

/// The characters of each line that was read; an unreadable line has none.
pub open spec fn line_views(v: Seq<Option<String>>) -> Seq<Seq<char>> {
    v.map_values(|l: Option<String>| match l {
        Some(s) => s@,
        None => Seq::<char>::empty(),
    })
}

/// The lines that the source section around line `lineno` shows, out of the
/// file's lines `lines`, counted from line 1.
pub open spec fn window_lines(lineno: u32, lines: Seq<Option<String>>) -> Seq<Seq<char>> {
    let (from, to) = window_bounds(lineno, lines.len() as int);
    line_views(lines.subrange(from, to))
}

/// The number of the first line of source shown around line `lineno`.
pub fn source_window_start(lineno: u32) -> (start: u32)
    requires
        lineno >= 1,
    ensures
        start == window_start(lineno),
{
    let back: u32 = if lineno - 1 < 2 {
        lineno - 1
    } else {
        2
    };
    lineno - back
}

/// The window of source shown around line `lineno`: the number of its
/// first line, and how many lines it holds at most.
pub fn source_window(lineno: u32) -> (w: (u32, usize))
    requires
        lineno >= 1,
    ensures
        w.0 == window_start(lineno),
        w.1 == window_size(),
{
    (source_window_start(lineno), 5)
}

/// What the source lines around line `lineno` print, given the file's lines
/// from line 1 on, as far as they were read (`None` for a line that could
/// not be read): the five lines from `source_window_start(lineno)`, or as
/// many of them as the file has.
pub fn source_section_texts(lineno: u32, lines: &Vec<Option<String>>, styles: &Styles) -> (texts: Vec<
    StyledText,
>)
    requires
        lineno >= 1,
        forall|i: int|
            window_bounds(lineno, lines@.len() as int).0 <= i < window_bounds(
                lineno,
                lines@.len() as int,
            ).1 ==> (#[trigger] lines@[i]) is Some,
        window_start(lineno) + window_lines(lineno, lines@).len() <= u32::MAX,
    ensures
        styled_view(texts@) == source_texts(
            lineno,
            window_start(lineno),
            window_lines(lineno, lines@),
            styles.active_line,
        ),
{
    let (start, size) = source_window(lineno);
    let first: usize = (start - 1) as usize;
    let from: usize = if first < lines.len() { first } else { lines.len() };
    let to: usize = if first < lines.len() && lines.len() - first > size { first + size } else { lines.len() };
    let ghost shown = window_lines(lineno, lines@);
    assert(shown.len() == to - from);
    let active = styles.active_line;
    let mut texts: Vec<StyledText> = Vec::new();
    let mut k: usize = 0;
    while k < to - from
        invariant
            0 <= k <= to - from,
            from <= to <= lines@.len(),
            (from as int, to as int) == window_bounds(lineno, lines@.len() as int),
            shown == window_lines(lineno, lines@),
            shown.len() == to - from,
            forall|i: int| from <= i < to ==> (#[trigger] lines@[i]) is Some,
            start == window_start(lineno),
            start + shown.len() <= u32::MAX,
            active == styles.active_line,
            styled_view(texts@) == source_texts(lineno, start as int, shown.take(k as int), active),
        decreases to - from - k,
    {
        let ghost before = texts@;
        let n: u32 = start + k as u32;
        assert(lines@[from + k] is Some);
        let line: &String = lines[from + k].as_ref().unwrap();
        assert(shown[k as int] == line@);
        let number = right_align(decimal(n as u64).as_str(), 8);
        texts.push(plain_text("\n"));
        if n == lineno {
            texts.push(styled(number, Some(active)));
            texts.push(plain_text(" "));
            texts.push(styled(string_of(">"), Some(active)));
            texts.push(plain_text(" "));
            texts.push(styled(line.clone(), Some(active)));
        } else {
            let mut text = number;
            text.append(" │ ");
            text.append(line.as_str());
            texts.push(styled(text, None));
        }
        proof {
            assert(shown.take(k + 1).drop_last() =~= shown.take(k as int));
            assert(shown.take(k + 1).last() == line@);
            assert(styled_view(texts@) =~= styled_view(before) + seq![("\n"@, None)]
                + source_line_texts(lineno, start + k, line@, active));
        }
        k = k + 1;
    }
    assert(shown.take((to - from) as int) =~= shown);
    texts
}

/// A copy of the texts.
pub fn copy_texts(texts: &Vec<StyledText>) -> (copy: Vec<StyledText>)
    ensures
        styled_view(copy@) == styled_view(texts@),
{
    let mut copy: Vec<StyledText> = Vec::new();
    let mut i: usize = 0;
    while i < texts.len()
        invariant
            0 <= i <= texts.len(),
            styled_view(copy@) == styled_view(texts@.take(i as int)),
        decreases texts.len() - i,
    {
        let ghost before = copy@;
        let t = styled(texts[i].text.clone(), texts[i].style);
        assert(t.text@ == texts@[i as int].text@);
        copy.push(t);
        assert(texts@.take(i + 1) =~= texts@.take(i as int).push(texts@[i as int]));
        assert(styled_view(copy@) =~= styled_view(before).push((t.text@, t.style)));
        assert(styled_view(texts@.take(i + 1)) =~= styled_view(texts@.take(i as int)).push(
            (texts@[i as int].text@, texts@[i as int].style),
        ));
        i = i + 1;
    }
    assert(texts@.take(texts.len() as int) =~= texts@);
    copy
}

/// The source a frame shows after its location: at full verbosity, for a
/// frame with a file and a line number whose file could be opened and whose
/// lines were read as `file_lines`, the source section; otherwise nothing.
pub open spec fn frame_source_texts(
    f: &Frame,
    v: Verbosity,
    file_lines: Option<Seq<Option<String>>>,
) -> Seq<(Seq<char>, Option<Style>)> {
    if v == Verbosity::Full && f.filename is Some {
        match (f.lineno, file_lines) {
            (Some(k), Some(lines)) => source_texts(
                k,
                window_start(k),
                window_lines(k, lines),
                f.styles.active_line,
            ),
            _ => seq![],
        }
    } else {
        seq![]
    }
}

/// The source section of `f` can be printed from `lines`: the line number
/// is at least 1, the lines shown were read, and their numbers fit in a
/// `u32`.
pub open spec fn source_printable(lineno: u32, lines: Seq<Option<String>>) -> bool {
    &&& lineno >= 1
    &&& forall|i: int|
        window_bounds(lineno, lines.len() as int).0 <= i < window_bounds(
            lineno,
            lines.len() as int,
        ).1 ==> (#[trigger] lines[i]) is Some
    &&& window_start(lineno) + window_lines(lineno, lines).len() <= u32::MAX
}

impl Frame {
    /// What this frame prints at verbosity `v`, given the lines read from
    /// its file (`None` where the file could not be found): its number,
    /// name and location, and at full verbosity the source around its line.
    pub fn texts_with_source(&self, v: Verbosity, file_lines: Option<&Vec<Option<String>>>) -> (texts:
        Vec<StyledText>)
        requires
            name_cuts_cleanly(encode_utf8(shown_name(self))),
            v == Verbosity::Full && self.filename is Some ==> match (self.lineno, file_lines) {
                (Some(k), Some(lines)) => source_printable(k, lines@),
                _ => true,
            },
        ensures
            styled_view(texts@) == frame_texts(self) + frame_source_texts(
                self,
                v,
                match file_lines {
                    Some(lines) => Some(lines@),
                    None => None,
                },
            ),
    {
        let mut texts = self.display_texts();
        let ghost head = texts@;
        let full = match v {
            Verbosity::Full => true,
            _ => false,
        };
        if full && self.filename.is_some() {
            match (self.lineno, file_lines) {
                (Some(k), Some(lines)) => {
                    let mut source = source_section_texts(k, lines, &self.styles);
                    let ghost tail = source@;
                    texts.append(&mut source);
                    assert(styled_view(texts@) =~= styled_view(head) + styled_view(tail));
                },
                _ => {},
            }
        }
        assert(styled_view(texts@) =~= frame_texts(self) + frame_source_texts(
            self,
            v,
            match file_lines {
                Some(lines) => Some(lines@),
                None => None,
            },
        ));
        texts
    }
}

/// The payload text of a panic: the message, or a placeholder where the
/// payload is not a string.
pub open spec fn payload_text(payload: Option<Seq<char>>) -> Seq<char> {
    match payload {
        Some(p) => p,
        None => "<non string panic payload>"@,
    }
}

/// What the default panic message prints: a header, the message and the
/// location of the panic.
pub open spec fn panic_message_texts(
    styles: Styles,
    payload: Option<Seq<char>>,
    location: Option<(Seq<char>, u32)>,
) -> Seq<(Seq<char>, Option<Style>)> {
    seq![
        ("The application panicked (crashed)."@, Some(styles.panic_header)),
        ("\n"@, None),
        ("Message:  "@, None),
        (payload_text(payload), Some(styles.panic_message)),
        ("\n"@, None),
        ("Location: "@, None),
    ] + match location {
        Some((file, line)) => seq![
            (file, Some(styles.panic_file)),
            (":"@, None),
            (decimal_digits(line as nat), Some(styles.panic_line_number)),
        ],
        None => seq![("<unknown>"@, None)],
    }
}

/// What the default panic message prints, for a panic with the given
/// payload text (if the payload is a string) and location (if known).
pub fn default_panic_message(
    styles: &Styles,
    payload: Option<&str>,
    location: Option<(&str, u32)>,
) -> (texts: Vec<StyledText>)
    ensures
        styled_view(texts@) == panic_message_texts(
            *styles,
            match payload {
                Some(p) => Some(p@),
                None => None,
            },
            match location {
                Some((file, line)) => Some((file@, line)),
                None => None,
            },
        ),
{
    let mut texts: Vec<StyledText> = Vec::new();
    texts.push(styled(string_of("The application panicked (crashed)."), Some(styles.panic_header)));
    texts.push(plain_text("\n"));
    texts.push(plain_text("Message:  "));
    let payload_text = match payload {
        Some(p) => p,
        None => "<non string panic payload>",
    };
    texts.push(styled(string_of(payload_text), Some(styles.panic_message)));
    texts.push(plain_text("\n"));
    texts.push(plain_text("Location: "));
    match location {
        Some((file, line)) => {
            texts.push(styled(string_of(file), Some(styles.panic_file)));
            texts.push(plain_text(":"));
            texts.push(styled(decimal(line as u64), Some(styles.panic_line_number)));
        },
        None => {
            texts.push(plain_text("<unknown>"));
        },
    }
    assert(styled_view(texts@) =~= panic_message_texts(
        *styles,
        match payload {
            Some(p) => Some(p@),
            None => None,
        },
        match location {
            Some((file, line)) => Some((file@, line)),
            None => None,
        },
    ));
    texts
}

/// The part of a hashed name before its hash is styled as dependency code
/// exactly when the frame is dependency code by its name or by its file,
/// and as the user's crate code otherwise; in particular a frame whose file
/// lies in the registry of downloaded crates prints as dependency code.
pub proof fn hashed_name_style_follows_the_frame_s_origin(f: &Frame)
    requires
        has_hash_suffix(encode_utf8(shown_name(f))),
    ensures
        name_texts(f).len() == 2,
        name_texts(f)[1].1 == Some(f.styles.code_hash),
        name_texts(f)[0].1 == Some(
            if crate::frame::is_dependency(
                crate::frame::opt_view(f.name),
                crate::frame::opt_view(f.filename),
            ) {
                f.styles.dependency_code
            } else {
                f.styles.crate_code
            },
        ),
        (f.filename matches Some(file) && crate::text::occurs_in(
            "/.cargo/registry/src/"@,
            file@,
        )) ==> name_texts(f)[0].1 == Some(f.styles.dependency_code),
        (!crate::frame::is_dependency(crate::frame::opt_view(f.name), None) && f.filename is None)
            ==> name_texts(f)[0].1 == Some(f.styles.crate_code),
{
    reveal_strlit("/.cargo/registry/src/");
    assert(crate::frame::registry_marker() == "/.cargo/registry/src/"@);
}

} // verus!
