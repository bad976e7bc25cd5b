//! The assembly of a panic report: its sections, each after a blank line,
//! and the backtrace indented by two spaces.
//!
//! Texts are printed with their styles: a style that changes anything
//! writes an escape code before its text and another after it, both
//! without line breaks. The indentation goes into that printed stream, so
//! an escape code at the start of a line is indented too.
use vstd::prelude::*;
use crate::render::{plain_text, styled, styled_view, StyledText};
use crate::style::{plain, Style};
use crate::text::{char_vec, push_char};

verus! {

broadcast use vstd::string::group_string_axioms;

/// Whether the next character printed after `s` starts a line, where the
/// first character of `s` does iff `at_start`.
pub open spec fn starts_line_after(s: Seq<char>, at_start: bool) -> bool {
    if s.len() == 0 {
        at_start
    } else {
        s.last() == '\n'
    }
}

/// `s` with two spaces before the first character of each line that holds
/// one; an empty line stays empty. `at_start` says whether `s` begins a
/// line.
pub open spec fn indent_chars(s: Seq<char>, at_start: bool) -> Seq<char>
    decreases s.len(),
{
    if s.len() == 0 {
        Seq::<char>::empty()
    } else {
        let p = s.drop_last();
        let c = s.last();
        indent_chars(p, at_start) + if c != '\n' && starts_line_after(p, at_start) {
            seq![' ', ' ', c]
        } else {
            seq![c]
        }
    }
}

/// The style writes escape codes around its text.
pub open spec fn writes_codes(st: Option<Style>) -> bool {
    st matches Some(s) && s != plain()
}

/// The text ends with a line break.
pub open spec fn ends_line(s: Seq<char>) -> bool {
    s.len() > 0 && s.last() == '\n'
}

/// The indented form of one styled text, where `at_start` says whether it
/// begins a line. A text with escape codes gets the indentation of its
/// opening code unstyled before it, and that of its closing code, where its
/// text ends a line, at its end.
pub open spec fn indent_text(t: (Seq<char>, Option<Style>), at_start: bool) -> Seq<
    (Seq<char>, Option<Style>),
> {
    if writes_codes(t.1) {
        let body = indent_chars(t.0, false) + if ends_line(t.0) {
            seq![' ', ' ']
        } else {
            Seq::<char>::empty()
        };
        let lead = if at_start {
            seq![(seq![' ', ' '], None::<Style>)]
        } else {
            Seq::<(Seq<char>, Option<Style>)>::empty()
        };
        lead.push((body, t.1))
    } else {
        seq![(indent_chars(t.0, at_start), t.1)]
    }
}

/// Whether a line starts after the styled text `t` is printed.
pub open spec fn text_starts_line_after(t: (Seq<char>, Option<Style>), at_start: bool) -> bool {
    if writes_codes(t.1) {
        false
    } else {
        starts_line_after(t.0, at_start)
    }
}

/// Whether a line starts after the styled texts `ts` are printed.
pub open spec fn texts_start_line_after(ts: Seq<(Seq<char>, Option<Style>)>, at_start: bool) -> bool
    decreases ts.len(),
{
    if ts.len() == 0 {
        at_start
    } else {
        text_starts_line_after(ts.last(), texts_start_line_after(ts.drop_last(), at_start))
    }
}

/// The styled texts `ts`, indented by two spaces, where `at_start` says
/// whether they begin a line.
pub open spec fn indent_texts_view(ts: Seq<(Seq<char>, Option<Style>)>, at_start: bool) -> Seq<
    (Seq<char>, Option<Style>),
>
    decreases ts.len(),
{
    if ts.len() == 0 {
        Seq::<(Seq<char>, Option<Style>)>::empty()
    } else {
        indent_texts_view(ts.drop_last(), at_start) + indent_text(
            ts.last(),
            texts_start_line_after(ts.drop_last(), at_start),
        )
    }
}

/// What the styled texts print, where a style that writes codes writes
/// `open` of it before its text and `close` after it.
pub open spec fn printed(
    ts: Seq<(Seq<char>, Option<Style>)>,
    open: spec_fn(Style) -> Seq<char>,
    close: Seq<char>,
) -> Seq<char>
    decreases ts.len(),
{
    if ts.len() == 0 {
        Seq::<char>::empty()
    } else {
        printed(ts.drop_last(), open, close) + printed_text(ts.last(), open, close)
    }
}

/// What one styled text prints.
pub open spec fn printed_text(
    t: (Seq<char>, Option<Style>),
    open: spec_fn(Style) -> Seq<char>,
    close: Seq<char>,
) -> Seq<char> {
    if writes_codes(t.1) {
        open(t.1.unwrap()) + t.0 + close
    } else {
        t.0
    }
}

/// An escape code: at least one character, and no line break.
pub open spec fn is_code(s: Seq<char>) -> bool {
    s.len() > 0 && forall|i: int| 0 <= i < s.len() ==> s[i] != '\n'
}

proof fn lemma_indent_concat(s1: Seq<char>, s2: Seq<char>, a: bool)
    ensures
        indent_chars(s1 + s2, a) == indent_chars(s1, a) + indent_chars(
            s2,
            starts_line_after(s1, a),
        ),
        starts_line_after(s1 + s2, a) == starts_line_after(s2, starts_line_after(s1, a)),
    decreases s2.len(),
{
    if s2.len() == 0 {
        assert(s1 + s2 =~= s1);
        assert(indent_chars(s2, starts_line_after(s1, a)) =~= Seq::<char>::empty());
        assert(indent_chars(s1, a) + Seq::<char>::empty() =~= indent_chars(s1, a));
    } else {
        lemma_indent_concat(s1, s2.drop_last(), a);
        assert((s1 + s2).drop_last() =~= s1 + s2.drop_last());
        assert((s1 + s2).last() == s2.last());
        let b = starts_line_after(s1, a);
        let p = s2.drop_last();
        let piece = if s2.last() != '\n' && starts_line_after(p, b) {
            seq![' ', ' ', s2.last()]
        } else {
            seq![s2.last()]
        };
        assert(indent_chars(s2, b) == indent_chars(p, b) + piece);
        assert(indent_chars(s1 + s2, a) =~= indent_chars(s1, a) + indent_chars(p, b) + piece);
    }
}

proof fn lemma_indent_code(s: Seq<char>, a: bool)
    requires
        is_code(s),
    ensures
        indent_chars(s, a) == (if a {
            seq![' ', ' ']
        } else {
            Seq::<char>::empty()
        }) + s,
        !starts_line_after(s, a),
    decreases s.len(),
{
    let p = s.drop_last();
    assert(s[s.len() - 1] != '\n');
    if p.len() == 0 {
        assert(s =~= seq![s.last()]);
        assert(indent_chars(p, a) =~= Seq::<char>::empty());
        if a {
            assert(indent_chars(s, a) =~= seq![' ', ' '] + s);
        } else {
            assert(indent_chars(s, a) =~= Seq::<char>::empty() + s);
        }
    } else {
        assert forall|i: int| 0 <= i < p.len() implies p[i] != '\n' by {
            assert(p[i] == s[i]);
        }
        lemma_indent_code(p, a);
        assert(indent_chars(s, a) =~= indent_chars(p, a) + seq![s.last()]);
        assert(s =~= p.push(s.last()));
        if a {
            assert(indent_chars(s, a) =~= seq![' ', ' '] + s);
        } else {
            assert(indent_chars(s, a) =~= Seq::<char>::empty() + s);
        }
    }
}

proof fn lemma_printed_concat(
    x: Seq<(Seq<char>, Option<Style>)>,
    y: Seq<(Seq<char>, Option<Style>)>,
    open: spec_fn(Style) -> Seq<char>,
    close: Seq<char>,
)
    ensures
        printed(x + y, open, close) == printed(x, open, close) + printed(y, open, close),
    decreases y.len(),
{
    if y.len() == 0 {
        assert(x + y =~= x);
        assert(printed(x, open, close) + printed(y, open, close) =~= printed(x, open, close));
    } else {
        lemma_printed_concat(x, y.drop_last(), open, close);
        assert((x + y).drop_last() =~= x + y.drop_last());
        assert((x + y).last() == y.last());
        assert(printed(x + y, open, close) =~= printed(x, open, close) + printed(y, open, close));
    }
}

proof fn lemma_indent_one_text(
    t: (Seq<char>, Option<Style>),
    a: bool,
    open: spec_fn(Style) -> Seq<char>,
    close: Seq<char>,
)
    requires
        is_code(close),
        forall|st: Style| is_code(#[trigger] open(st)),
    ensures
        printed(indent_text(t, a), open, close) == indent_chars(printed_text(t, open, close), a),
        text_starts_line_after(t, a) == starts_line_after(printed_text(t, open, close), a),
{
    let out = indent_text(t, a);
    if writes_codes(t.1) {
        let o = open(t.1.unwrap());
        assert(is_code(o));
        lemma_indent_concat(o, t.0, a);
        lemma_indent_concat(o + t.0, close, a);
        lemma_indent_code(o, a);
        lemma_indent_code(close, starts_line_after(o + t.0, a));
        lemma_indent_code(close, a);
        assert(starts_line_after(o + t.0, a) == ends_line(t.0));
        let body = indent_chars(t.0, false) + if ends_line(t.0) {
            seq![' ', ' ']
        } else {
            Seq::<char>::empty()
        };
        let lead = if a {
            seq![(seq![' ', ' '], None::<Style>)]
        } else {
            Seq::<(Seq<char>, Option<Style>)>::empty()
        };
        assert(out == lead.push((body, t.1)));
        assert(printed(lead, open, close) == if a {
            seq![' ', ' ']
        } else {
            Seq::<char>::empty()
        }) by {
            if a {
                assert(lead.drop_last() =~= Seq::<(Seq<char>, Option<Style>)>::empty());
                assert(printed(lead.drop_last(), open, close) =~= Seq::<char>::empty());
                assert(lead.last() == (seq![' ', ' '], None::<Style>));
                assert(printed_text(lead.last(), open, close) == seq![' ', ' ']);
                assert(printed(lead, open, close) =~= seq![' ', ' ']);
            }
        }
        assert(out.drop_last() =~= lead);
        assert(printed(out, open, close) =~= indent_chars(printed_text(t, open, close), a));
        assert(starts_line_after(o + t.0 + close, a) == starts_line_after(
            close,
            starts_line_after(o + t.0, a),
        ));
    } else {
        assert(out.drop_last() =~= Seq::<(Seq<char>, Option<Style>)>::empty());
        assert(printed(out.drop_last(), open, close) =~= Seq::<char>::empty());
        assert(out.last() == (indent_chars(t.0, a), t.1));
        assert(printed_text(out.last(), open, close) == indent_chars(t.0, a));
        assert(printed(out, open, close) =~= indent_chars(t.0, a));
    }
}

/// Indenting styled texts indents what they print: for any escape codes
/// that the styles write around their texts, what the indented texts print
/// is what the texts print, with two spaces before the first character of
/// each line that holds one.
pub proof fn indented_texts_print_indented(
    ts: Seq<(Seq<char>, Option<Style>)>,
    at_start: bool,
    open: spec_fn(Style) -> Seq<char>,
    close: Seq<char>,
)
    requires
        is_code(close),
        forall|st: Style| is_code(#[trigger] open(st)),
    ensures
        printed(indent_texts_view(ts, at_start), open, close) == indent_chars(
            printed(ts, open, close),
            at_start,
        ),
        texts_start_line_after(ts, at_start) == starts_line_after(
            printed(ts, open, close),
            at_start,
        ),
    decreases ts.len(),
{
    if ts.len() == 0 {
        assert(printed(ts, open, close) =~= Seq::<char>::empty());
        assert(indent_chars(printed(ts, open, close), at_start) =~= Seq::<char>::empty());
    } else {
        let p = ts.drop_last();
        let t = ts.last();
        indented_texts_print_indented(p, at_start, open, close);
        let b = texts_start_line_after(p, at_start);
        lemma_indent_one_text(t, b, open, close);
        lemma_printed_concat(indent_texts_view(p, at_start), indent_text(t, b), open, close);
        lemma_indent_concat(printed(p, open, close), printed_text(t, open, close), at_start);
    }
}

/// The characters of `s`, with two spaces before the first character of
/// each line that holds one.
pub fn indent_string(s: &String, at_start: bool) -> (r: String)
    ensures
        r@ == indent_chars(s@, at_start),
{
    let cs = char_vec(s.as_str());
    let mut r = String::new();
    let mut start = at_start;
    let mut i: usize = 0;
    assert(s@.subrange(0, 0) =~= Seq::<char>::empty());
    while i < cs.len()
        invariant
            0 <= i <= cs.len(),
            cs@ == s@,
            r@ == indent_chars(s@.subrange(0, i as int), at_start),
            start == starts_line_after(s@.subrange(0, i as int), at_start),
        decreases cs.len() - i,
    {
        let c = cs[i];
        let ghost before = s@.subrange(0, i as int);
        proof {
            let next = s@.subrange(0, i + 1);
            assert(next.drop_last() =~= before);
            assert(next.last() == c);
        }
        if c == '\n' {
            push_char(&mut r, c);
            start = true;
        } else {
            if start {
                push_char(&mut r, ' ');
                push_char(&mut r, ' ');
            }
            push_char(&mut r, c);
            start = false;
        }
        i = i + 1;
        assert(r@ =~= indent_chars(s@.subrange(0, i as int), at_start));
    }
    assert(s@.subrange(0, s@.len() as int) =~= s@);
    r
}

/// Whether the style writes escape codes around its text.
pub fn has_codes(st: Option<Style>) -> (r: bool)
    ensures
        r == writes_codes(st),
{
    match st {
        Some(s) => s.fg.is_some() || s.bg.is_some() || s.bold || s.effects.any(),
        None => false,
    }
}

/// The styled texts, indented by two spaces as they are printed, starting
/// at the beginning of a line.
pub fn indent_texts(texts: &Vec<StyledText>) -> (out: Vec<StyledText>)
    ensures
        styled_view(out@) == indent_texts_view(styled_view(texts@), true),
{
    let mut out: Vec<StyledText> = Vec::new();
    let mut start = true;
    let mut i: usize = 0;
    assert(styled_view(texts@).take(0) =~= Seq::<(Seq<char>, Option<Style>)>::empty());
    while i < texts.len()
        invariant
            0 <= i <= texts.len(),
            styled_view(out@) == indent_texts_view(styled_view(texts@).take(i as int), true),
            start == texts_start_line_after(styled_view(texts@).take(i as int), true),
        decreases texts.len() - i,
    {
        let t = &texts[i];
        let ghost before = styled_view(out@);
        let ghost prefix = styled_view(texts@).take(i as int);
        proof {
            let next = styled_view(texts@).take(i + 1);
            assert(next.drop_last() =~= prefix);
            assert(next.last() == (t.text@, t.style));
        }
        let ghost at = start;
        if has_codes(t.style) {
            if start {
                out.push(plain_text("  "));
            }
            let ghost mid = styled_view(out@);
            proof {
                reveal_strlit("  ");
                let lead = if at {
                    seq![(seq![' ', ' '], None::<Style>)]
                } else {
                    Seq::<(Seq<char>, Option<Style>)>::empty()
                };
                assert(mid =~~= before + lead);
            }
            let mut body = indent_string(&t.text, false);
            let n = t.text.as_str().unicode_len();
            if n > 0 && t.text.as_str().get_char(n - 1) == '\n' {
                push_char(&mut body, ' ');
                push_char(&mut body, ' ');
                assert(body@ =~= indent_chars(t.text@, false) + seq![' ', ' ']);
            } else {
                assert(!ends_line(t.text@));
                assert(body@ =~= indent_chars(t.text@, false) + Seq::<char>::empty());
            }
            out.push(styled(body, t.style));
            start = false;
            proof {
                assert(styled_view(out@) =~= mid.push((body@, t.style)));
                assert(styled_view(out@) =~= before + indent_text((t.text@, t.style), at));
            }
        } else {
            let body = indent_string(&t.text, start);
            let n = t.text.as_str().unicode_len();
            if n > 0 {
                start = t.text.as_str().get_char(n - 1) == '\n';
            }
            out.push(styled(body, t.style));
            proof {
                assert(styled_view(out@) =~= before + indent_text((t.text@, t.style), at));
            }
        }
        i = i + 1;
    }
    assert(styled_view(texts@).take(texts.len() as int) =~= styled_view(texts@));
    out
}

/// The texts of a section, printed after a blank line, where the section
/// prints anything.
pub open spec fn section_view(ts: Seq<(Seq<char>, Option<Style>)>) -> Seq<(Seq<char>, Option<Style>)> {
    if prints_something(ts) {
        seq![("\n\n"@, None::<Style>)] + ts
    } else {
        Seq::<(Seq<char>, Option<Style>)>::empty()
    }
}

/// Printing the texts writes at least one character: a text is not empty,
/// or writes escape codes.
pub open spec fn prints_something(ts: Seq<(Seq<char>, Option<Style>)>) -> bool {
    exists|i: int| 0 <= i < ts.len() && (ts[i].0.len() > 0 || writes_codes(ts[i].1))
}

/// The unstyled text of a section given as a string, or nothing.
pub open spec fn text_section(t: Option<String>) -> Seq<(Seq<char>, Option<Style>)> {
    match t {
        Some(s) => seq![(s@, None::<Style>)],
        None => Seq::<(Seq<char>, Option<Style>)>::empty(),
    }
}

/// The indented backtrace section, or nothing.
pub open spec fn backtrace_section(bt: Option<Seq<(Seq<char>, Option<Style>)>>) -> Seq<
    (Seq<char>, Option<Style>),
> {
    match bt {
        Some(ts) => indent_texts_view(ts, true),
        None => Seq::<(Seq<char>, Option<Style>)>::empty(),
    }
}

/// What a panic report prints: its message, then, each after a blank line
/// and only where it prints anything, the custom section, the span trace,
/// the backtrace indented by two spaces, the section on environment
/// variables and the issue section.
pub open spec fn panic_report_view(
    message: Seq<(Seq<char>, Option<Style>)>,
    section: Option<String>,
    span_trace: Option<String>,
    backtrace: Option<Seq<(Seq<char>, Option<Style>)>>,
    env_section: Option<String>,
    issue_section: Option<String>,
) -> Seq<(Seq<char>, Option<Style>)> {
    message + section_view(text_section(section)) + section_view(text_section(span_trace))
        + section_view(backtrace_section(backtrace)) + section_view(text_section(env_section))
        + section_view(text_section(issue_section))
}

/// Whether printing the texts writes at least one character.
pub fn texts_print_something(texts: &Vec<StyledText>) -> (r: bool)
    ensures
        r == prints_something(styled_view(texts@)),
{
    let mut i: usize = 0;
    while i < texts.len()
        invariant
            0 <= i <= texts.len(),
            forall|j: int|
                0 <= j < i ==> !(#[trigger] styled_view(texts@)[j].0.len() > 0 || writes_codes(
                    styled_view(texts@)[j].1,
                )),
        decreases texts.len() - i,
    {
        if texts[i].text.as_str().unicode_len() > 0 || has_codes(texts[i].style) {
            assert(styled_view(texts@)[i as int].0.len() > 0 || writes_codes(
                styled_view(texts@)[i as int].1,
            ));
            return true;
        }
        i = i + 1;
    }
    false
}

/// Appends the section `texts` to `out`, after a blank line, where it
/// prints anything.
fn push_section(out: &mut Vec<StyledText>, texts: Vec<StyledText>)
    ensures
        styled_view(final(out)@) == styled_view(old(out)@) + section_view(styled_view(texts@)),
{
    let ghost ts = styled_view(texts@);
    if texts_print_something(&texts) {
        out.push(plain_text("\n\n"));
        let mut texts = texts;
        out.append(&mut texts);
        proof {
            reveal_strlit("\n\n");
        }
        assert(styled_view(out@) =~= styled_view(old(out)@) + section_view(ts));
    } else {
        assert(styled_view(out@) =~= styled_view(old(out)@) + section_view(ts));
    }
}

fn text_texts(t: Option<String>) -> (texts: Vec<StyledText>)
    ensures
        styled_view(texts@) == text_section(t),
{
    let mut texts: Vec<StyledText> = Vec::new();
    match t {
        Some(s) => {
            texts.push(styled(s, None));
        },
        None => {},
    }
    assert(styled_view(texts@) =~= text_section(t));
    texts
}

/// The styled texts of an optional list of texts.
pub open spec fn opt_styled_view(t: Option<Vec<StyledText>>) -> Option<Seq<(Seq<char>, Option<Style>)>> {
    match t {
        Some(v) => Some(styled_view(v@)),
        None => None,
    }
}

/// Assembles a panic report from its message and the texts of its
/// sections, as they were displayed when the report is printed.
pub fn panic_report_texts(
    message: Vec<StyledText>,
    section: Option<String>,
    span_trace: Option<String>,
    backtrace: Option<Vec<StyledText>>,
    env_section: Option<String>,
    issue_section: Option<String>,
) -> (texts: Vec<StyledText>)
    ensures
        styled_view(texts@) == panic_report_view(
            styled_view(message@),
            section,
            span_trace,
            opt_styled_view(backtrace),
            env_section,
            issue_section,
        ),
{
    let ghost bt_view = opt_styled_view(backtrace);
    let mut texts = message;
    push_section(&mut texts, text_texts(section));
    push_section(&mut texts, text_texts(span_trace));
    let bt_texts = match backtrace {
        Some(bt) => indent_texts(&bt),
        None => Vec::new(),
    };
    assert(styled_view(bt_texts@) == backtrace_section(bt_view)) by {
        if backtrace is None {
            assert(styled_view(bt_texts@) =~= backtrace_section(bt_view));
        }
    }
    push_section(&mut texts, bt_texts);
    push_section(&mut texts, text_texts(env_section));
    push_section(&mut texts, text_texts(issue_section));
    texts
}

/// The text of a section given as a string, unstyled; nothing where it is
/// absent.
pub open spec fn given_text(o: Option<String>) -> Seq<(Seq<char>, Option<Style>)> {
    match o {
        Some(s) => seq![(s@, None::<Style>)],
        None => Seq::<(Seq<char>, Option<Style>)>::empty(),
    }
}

/// The sections of a panic report as given, in the order in which the
/// report is to print them: the custom section, the span trace, the
/// backtrace indented by two spaces, the section on environment variables
/// and the issue section. An absent section is empty.
pub open spec fn given_sections(
    section: Option<String>,
    span_trace: Option<String>,
    backtrace: Option<Seq<(Seq<char>, Option<Style>)>>,
    env_section: Option<String>,
    issue_section: Option<String>,
) -> Seq<Seq<(Seq<char>, Option<Style>)>> {
    seq![
        given_text(section),
        given_text(span_trace),
        match backtrace {
            Some(ts) => indent_texts_view(ts, true),
            None => Seq::<(Seq<char>, Option<Style>)>::empty(),
        },
        given_text(env_section),
        given_text(issue_section),
    ]
}

/// From position `k`, `v` holds a blank line and then the texts `ts`.
pub open spec fn shows_after_blank(
    v: Seq<(Seq<char>, Option<Style>)>,
    k: int,
    ts: Seq<(Seq<char>, Option<Style>)>,
) -> bool {
    &&& 0 <= k
    &&& k + 1 + ts.len() <= v.len()
    &&& v[k] == ("\n\n"@, None::<Style>)
    &&& v.subrange(k + 1, k + 1 + ts.len()) == ts
}

proof fn lemma_section_at(
    v: Seq<(Seq<char>, Option<Style>)>,
    a: Seq<(Seq<char>, Option<Style>)>,
    s: Seq<(Seq<char>, Option<Style>)>,
    b: Seq<(Seq<char>, Option<Style>)>,
)
    requires
        v == a + section_view(s) + b,
    ensures
        prints_something(s) ==> shows_after_blank(v, a.len() as int, s),
        prints_something(s) ==> section_view(s).len() == s.len() + 1,
        !prints_something(s) ==> section_view(s).len() == 0,
{
    if prints_something(s) {
        assert(v[a.len() as int] == ("\n\n"@, None::<Style>));
        assert(v.subrange((a.len() + 1) as int, (a.len() + 1 + s.len()) as int) =~= s);
    }
}

/// The report text made of `message` and the sections `ss`, each shown
/// after a blank line where it prints anything.
spec fn joined_sections(
    message: Seq<(Seq<char>, Option<Style>)>,
    ss: Seq<Seq<(Seq<char>, Option<Style>)>>,
) -> Seq<(Seq<char>, Option<Style>)> {
    message + section_view(ss[0]) + section_view(ss[1]) + section_view(ss[2]) + section_view(ss[3])
        + section_view(ss[4])
}

proof fn lemma_piece_at(
    x: Seq<(Seq<char>, Option<Style>)>,
    y: Seq<(Seq<char>, Option<Style>)>,
    z: Seq<(Seq<char>, Option<Style>)>,
)
    ensures
        (x + y + z).subrange(x.len() as int, (x.len() + y.len()) as int) == y,
        (x + y + z).subrange(0, x.len() as int) == x,
{
    assert((x + y + z).subrange(x.len() as int, (x.len() + y.len()) as int) =~= y);
    assert((x + y + z).subrange(0, x.len() as int) =~= x);
}

proof fn lemma_blank_then(
    r: Seq<(Seq<char>, Option<Style>)>,
    k: int,
    s: Seq<(Seq<char>, Option<Style>)>,
)
    requires
        0 <= k,
        k + section_view(s).len() <= r.len(),
        r.subrange(k, k + section_view(s).len()) == section_view(s),
    ensures
        prints_something(s) ==> shows_after_blank(r, k, s),
{
    if prints_something(s) {
        let v = section_view(s);
        assert(v == seq![("\n\n"@, None::<Style>)] + s);
        assert(r.subrange(k, k + v.len())[0] == r[k]);
        assert(r.subrange(k + 1, k + 1 + s.len()) =~= r.subrange(k, k + v.len()).subrange(1, v.len() as int));
        assert(v.subrange(1, v.len() as int) =~= s);
    }
}

spec fn concat5(
    message: Seq<(Seq<char>, Option<Style>)>,
    v: Seq<Seq<(Seq<char>, Option<Style>)>>,
) -> Seq<(Seq<char>, Option<Style>)> {
    message + v[0] + v[1] + v[2] + v[3] + v[4]
}

proof fn lemma_blocks(
    message: Seq<(Seq<char>, Option<Style>)>,
    v: Seq<Seq<(Seq<char>, Option<Style>)>>,
) -> (at: Seq<int>)
    requires
        v.len() == 5,
    ensures
        at.len() == 6,
        at[0] == message.len(),
        at[5] == concat5(message, v).len(),
        concat5(message, v).subrange(0, message.len() as int) == message,
        forall|j: int|
            0 <= j < 5 ==> at[j + 1] == at[j] + v[j].len() && concat5(message, v).subrange(
                at[j],
                at[j + 1],
            ) == #[trigger] v[j],
{
    let r = concat5(message, v);
    let p1 = message + v[0];
    let p2 = p1 + v[1];
    let p3 = p2 + v[2];
    let p4 = p3 + v[3];
    lemma_piece_at(message, v[0], v[1] + v[2] + v[3] + v[4]);
    assert(message + v[0] + (v[1] + v[2] + v[3] + v[4]) =~= r);
    lemma_piece_at(p1, v[1], v[2] + v[3] + v[4]);
    assert(p1 + v[1] + (v[2] + v[3] + v[4]) =~= r);
    lemma_piece_at(p2, v[2], v[3] + v[4]);
    assert(p2 + v[2] + (v[3] + v[4]) =~= r);
    lemma_piece_at(p3, v[3], v[4]);
    lemma_piece_at(p4, v[4], Seq::<(Seq<char>, Option<Style>)>::empty());
    assert(p4 + v[4] + Seq::<(Seq<char>, Option<Style>)>::empty() =~= r);
    seq![
        message.len() as int,
        p1.len() as int,
        p2.len() as int,
        p3.len() as int,
        p4.len() as int,
        r.len() as int,
    ]
}

#[verifier::spinoff_prover]
#[verifier::rlimit(100)]
proof fn lemma_sections_in_order(
    message: Seq<(Seq<char>, Option<Style>)>,
    ss: Seq<Seq<(Seq<char>, Option<Style>)>>,
) -> (at: Seq<int>)
    requires
        ss.len() == 5,
    ensures
        joined_sections(message, ss).subrange(0, message.len() as int) == message,
        at.len() == 5,
        forall|j: int|
            0 <= j < 5 && prints_something(#[trigger] ss[j]) ==> at[j] >= message.len()
                && shows_after_blank(joined_sections(message, ss), at[j], ss[j]),
        forall|j1: int, j2: int|
            0 <= j1 < j2 < 5 && prints_something(#[trigger] ss[j1]) && prints_something(
                #[trigger] ss[j2],
            ) ==> at[j1] < at[j2],
        (forall|j: int| 0 <= j < 5 ==> !prints_something(#[trigger] ss[j])) ==> joined_sections(
            message,
            ss,
        ) == message,
{
    let v = seq![
        section_view(ss[0]),
        section_view(ss[1]),
        section_view(ss[2]),
        section_view(ss[3]),
        section_view(ss[4]),
    ];
    assert(joined_sections(message, ss) == concat5(message, v));
    let r = concat5(message, v);
    let pos = lemma_blocks(message, v);
    assert(pos[1] == pos[0] + v[0].len());
    assert(pos[2] == pos[1] + v[1].len());
    assert(pos[3] == pos[2] + v[2].len());
    assert(pos[4] == pos[3] + v[3].len());
    assert(pos[5] == pos[4] + v[4].len());
    assert forall|j: int| 0 <= j < 5 && prints_something(#[trigger] ss[j]) implies shows_after_blank(
        r,
        pos[j],
        ss[j],
    ) && pos[j] < pos[j + 1] && pos[j] >= message.len() by {
        if j == 0 {
        } else if j == 1 {
        } else if j == 2 {
        } else if j == 3 {
        } else {
        }
        assert(v[j] == section_view(ss[j]));
        assert(r.subrange(pos[j], pos[j + 1]) == v[j]);
        lemma_blank_then(r, pos[j], ss[j]);
    }
    let at = seq![pos[0], pos[1], pos[2], pos[3], pos[4]];
    assert forall|j1: int, j2: int|
        0 <= j1 < j2 < 5 && prints_something(#[trigger] ss[j1]) && prints_something(
            #[trigger] ss[j2],
        ) implies at[j1] < at[j2] by {
        assert(at[j1] == pos[j1] && at[j2] == pos[j2]);
        assert(pos[j1] < pos[j1 + 1]);
    }
    assert(r.subrange(0, message.len() as int) == message);
    if forall|j: int| 0 <= j < 5 ==> !prints_something(#[trigger] ss[j]) {
        assert forall|j: int| 0 <= j < 5 implies v[j].len() == 0 by {
            assert(!prints_something(ss[j]));
        }
        assert(v[0].len() == 0 && v[1].len() == 0 && v[2].len() == 0 && v[3].len() == 0
            && v[4].len() == 0);
        assert(r =~= message);
    }
    at
}

/// A panic report starts with its message, and every section that prints
/// anything appears in it after a blank line, whatever the other sections
/// are, in the order custom section, span trace, backtrace, environment
/// section, issue section; where no section prints, the report is its
/// message. The result gives the position of each section's blank line.
pub proof fn report_shows_each_section_in_order(
    message: Seq<(Seq<char>, Option<Style>)>,
    section: Option<String>,
    span_trace: Option<String>,
    backtrace: Option<Seq<(Seq<char>, Option<Style>)>>,
    env_section: Option<String>,
    issue_section: Option<String>,
) -> (at: Seq<int>)
    ensures
        panic_report_view(
            message,
            section,
            span_trace,
            backtrace,
            env_section,
            issue_section,
        ).subrange(0, message.len() as int) == message,
        at.len() == 5,
        forall|j: int|
            0 <= j < 5 && prints_something(
                #[trigger] given_sections(section, span_trace, backtrace, env_section, issue_section)[j],
            ) ==> at[j] >= message.len() && shows_after_blank(
                panic_report_view(message, section, span_trace, backtrace, env_section, issue_section),
                at[j],
                given_sections(section, span_trace, backtrace, env_section, issue_section)[j],
            ),
        forall|j1: int, j2: int|
            0 <= j1 < j2 < 5 && prints_something(
                #[trigger] given_sections(section, span_trace, backtrace, env_section, issue_section)[j1],
            ) && prints_something(
                #[trigger] given_sections(section, span_trace, backtrace, env_section, issue_section)[j2],
            ) ==> at[j1] < at[j2],
        (forall|j: int|
            0 <= j < 5 ==> !prints_something(
                #[trigger] given_sections(section, span_trace, backtrace, env_section, issue_section)[j],
            )) ==> panic_report_view(
            message,
            section,
            span_trace,
            backtrace,
            env_section,
            issue_section,
        ) == message,
{
    let secs = given_sections(section, span_trace, backtrace, env_section, issue_section);
    assert(text_section(section) == secs[0]);
    assert(text_section(span_trace) == secs[1]);
    assert(backtrace_section(backtrace) == secs[2]);
    assert(text_section(env_section) == secs[3]);
    assert(text_section(issue_section) == secs[4]);
    assert(panic_report_view(message, section, span_trace, backtrace, env_section, issue_section)
        == joined_sections(message, secs));
    lemma_sections_in_order(message, secs)
}

} // verus!
