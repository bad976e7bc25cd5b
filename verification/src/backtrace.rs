//! The layout of a printed backtrace: which frames are shown, in which
//! order, and how many are hidden between them.
use vstd::prelude::*;
use vstd::seq_lib::{to_multiset_build, to_multiset_insert};
use crate::frame::Frame;
use crate::render::{copy_texts, plain_text, styled, styled_view, StyledText};
use crate::style::{Style, Styles};
use crate::text::{center, centered, decimal, decimal_digits, push_char, string_of};

verus! {

broadcast use vstd::string::group_string_axioms;

/// A line of a printed backtrace.
#[derive(Clone, Copy, Debug, PartialEq, Eq, Structural)]
pub enum BacktraceLine {
    /// A notice that this many frames are hidden.
    Hidden(usize),
    /// The frame at this position of the list of shown frames.
    Shown(usize),
}

/// The frames are in ascending order of frame number.
pub open spec fn sorted_by_number(frames: Seq<&Frame>) -> bool {
    forall|i: int, j: int| 0 <= i < j < frames.len() ==> frames[i].n <= frames[j].n
}

/// The frame numbers are at least 1 and strictly ascending.
pub open spec fn strictly_numbered(frames: Seq<&Frame>) -> bool {
    &&& forall|i: int| 0 <= i < frames.len() ==> (#[trigger] frames[i]).n >= 1
    &&& forall|i: int, j: int| 0 <= i < j < frames.len() ==> frames[i].n < frames[j].n
}

/// The frame number before position `i`: that of the frame at `i - 1`, or 0.
pub open spec fn previous_number(frames: Seq<&Frame>, i: int) -> int {
    if i == 0 {
        0
    } else {
        frames[i - 1].n as int
    }
}

/// A notice of `k` hidden frames, if `k` is not 0.
pub open spec fn hidden_notice(k: int) -> Seq<BacktraceLine> {
    if k != 0 {
        seq![BacktraceLine::Hidden(k as usize)]
    } else {
        seq![]
    }
}

/// The lines for the first `k` shown frames: each frame, preceded by a
/// notice of the frames hidden since the previous one.
pub open spec fn shown_lines(frames: Seq<&Frame>, k: nat) -> Seq<BacktraceLine>
    decreases k,
{
    if k == 0 {
        seq![]
    } else {
        let i = k - 1;
        shown_lines(frames, (k - 1) as nat) + hidden_notice(
            frames[i].n - previous_number(frames, i) - 1,
        ) + seq![BacktraceLine::Shown(i as usize)]
    }
}

/// The lines of a backtrace that shows `frames` out of the frames numbered
/// 1 to `last`: each shown frame, preceded by a notice of the frames hidden
/// before it, and a final notice of the frames hidden after the last one.
pub open spec fn layout(frames: Seq<&Frame>, last: int) -> Seq<BacktraceLine> {
    let shown_last = previous_number(frames, frames.len() as int);
    shown_lines(frames, frames.len()) + if shown_last < last {
        seq![BacktraceLine::Hidden((last - shown_last) as usize)]
    } else {
        seq![]
    }
}

/// The number of frames that a line stands for.
pub open spec fn line_weight(line: BacktraceLine) -> int {
    match line {
        BacktraceLine::Hidden(k) => k as int,
        BacktraceLine::Shown(_) => 1,
    }
}

/// The number of frames that the lines stand for, shown or hidden.
pub open spec fn total_weight(lines: Seq<BacktraceLine>) -> int
    decreases lines.len(),
{
    if lines.len() == 0 {
        0
    } else {
        total_weight(lines.drop_last()) + line_weight(lines.last())
    }
}

/// Sorts the frames by frame number.
pub fn sort_by_number(frames: &mut Vec<&Frame>)
    ensures
        final(frames)@.to_multiset() == old(frames)@.to_multiset(),
        sorted_by_number(final(frames)@),
{
    broadcast use vstd::seq_lib::group_to_multiset_ensures;

    let ghost given = frames@;
    let mut sorted: Vec<&Frame> = Vec::new();
    let mut i: usize = 0;
    while i < frames.len()
        invariant
            frames@ == given,
            0 <= i <= given.len(),
            sorted@.to_multiset() == given.take(i as int).to_multiset(),
            sorted_by_number(sorted@),
        decreases given.len() - i,
    {
        let frame = frames[i];
        // Insert after every frame whose number is not greater.
        let mut pos = sorted.len();
        while pos > 0 && sorted[pos - 1].n > frame.n
            invariant
                0 <= pos <= sorted.len(),
                forall|j: int| pos <= j < sorted@.len() ==> sorted@[j].n > frame.n,
            decreases pos,
        {
            pos = pos - 1;
        }
        let ghost before = sorted@;
        sorted.insert(pos, frame);
        proof {
            to_multiset_insert(before, pos as int, frame);
            to_multiset_build(given.take(i as int), frame);
            assert(given.take(i + 1) =~= given.take(i as int).push(frame));
        }
        assert forall|a: int, b: int| 0 <= a < b < sorted@.len() implies sorted@[a].n
            <= sorted@[b].n by {
            if pos > 0 && a < pos && b == pos {
                assert(before[pos - 1].n <= frame.n);
                assert(before[a].n <= before[pos - 1].n);
            }
        }
        i = i + 1;
    }
    assert(given.take(given.len() as int) =~= given);
    *frames = sorted;
}

/// The lines of a backtrace that shows `frames`, sorted by frame number,
/// out of the frames numbered 1 to `last`.
pub fn backtrace_layout(frames: &Vec<&Frame>, last: usize) -> (lines: Vec<BacktraceLine>)
    requires
        strictly_numbered(frames@),
    ensures
        lines@ == layout(frames@, last as int),
{
    let mut lines: Vec<BacktraceLine> = Vec::new();
    let mut last_n: usize = 0;
    let mut i: usize = 0;
    while i < frames.len()
        invariant
            strictly_numbered(frames@),
            0 <= i <= frames.len(),
            last_n == previous_number(frames@, i as int),
            lines@ == shown_lines(frames@, i as nat),
        decreases frames.len() - i,
    {
        let frame = frames[i];
        assert(frame.n >= 1);
        let delta = frame.n - last_n - 1;
        if delta != 0 {
            lines.push(BacktraceLine::Hidden(delta));
        }
        lines.push(BacktraceLine::Shown(i));
        assert(lines@ =~= shown_lines(frames@, (i + 1) as nat));
        last_n = frame.n;
        i = i + 1;
    }
    if last_n < last {
        lines.push(BacktraceLine::Hidden(last - last_n));
    }
    assert(lines@ =~= layout(frames@, last as int));
    lines
}

proof fn lemma_total_weight_append(a: Seq<BacktraceLine>, b: Seq<BacktraceLine>)
    ensures
        total_weight(a + b) == total_weight(a) + total_weight(b),
    decreases b.len(),
{
    if b.len() == 0 {
        assert(a + b =~= a);
    } else {
        lemma_total_weight_append(a, b.drop_last());
        assert((a + b).drop_last() =~= a + b.drop_last());
    }
}

proof fn lemma_total_weight_single(line: BacktraceLine)
    ensures
        total_weight(seq![line]) == line_weight(line),
{
    reveal_with_fuel(total_weight, 2);
    assert(seq![line].drop_last() =~= Seq::<BacktraceLine>::empty());
}

proof fn lemma_shown_lines_weight(frames: Seq<&Frame>, k: nat)
    requires
        strictly_numbered(frames),
        k <= frames.len(),
    ensures
        total_weight(shown_lines(frames, k)) == previous_number(frames, k as int),
    decreases k,
{
    if k > 0 {
        let i = k - 1;
        lemma_shown_lines_weight(frames, (k - 1) as nat);
        let gap = frames[i].n - previous_number(frames, i) - 1;
        lemma_total_weight_append(shown_lines(frames, (k - 1) as nat), hidden_notice(gap));
        lemma_total_weight_append(
            shown_lines(frames, (k - 1) as nat) + hidden_notice(gap),
            seq![BacktraceLine::Shown(i as usize)],
        );
        assert(frames[i].n >= 1);
        if i > 0 {
            assert(frames[i - 1].n < frames[i].n);
        }
        assert(gap >= 0);
        lemma_total_weight_single(BacktraceLine::Shown(i as usize));
        if gap != 0 {
            lemma_total_weight_single(BacktraceLine::Hidden(gap as usize));
        } else {
            assert(total_weight(hidden_notice(gap)) == 0);
        }
    }
}

/// Every frame from 1 to `last` is accounted for exactly once in the layout
/// of a backtrace: shown, or counted in a notice of hidden frames.
pub proof fn layout_accounts_for_every_frame(frames: Seq<&Frame>, last: usize)
    requires
        strictly_numbered(frames),
        forall|i: int| 0 <= i < frames.len() ==> (#[trigger] frames[i]).n <= last,
    ensures
        total_weight(layout(frames, last as int)) == last,
{
    let k = frames.len();
    lemma_shown_lines_weight(frames, k);
    let shown_last = previous_number(frames, k as int);
    let tail = if shown_last < last {
        seq![BacktraceLine::Hidden((last - shown_last) as usize)]
    } else {
        seq![]
    };
    lemma_total_weight_append(shown_lines(frames, k), tail);
    if shown_last < last {
        lemma_total_weight_single(BacktraceLine::Hidden((last - shown_last) as usize));
    } else {
        assert(total_weight(tail) == 0);
        if k > 0 {
            assert(frames[k - 1].n <= last);
        }
    }
}

/// The positions, in the list of shown frames, of the frames that the
/// lines show, in the order of the lines.
pub open spec fn shown_positions(lines: Seq<BacktraceLine>) -> Seq<int>
    decreases lines.len(),
{
    if lines.len() == 0 {
        Seq::<int>::empty()
    } else {
        shown_positions(lines.drop_last()) + match lines.last() {
            BacktraceLine::Shown(i) => seq![i as int],
            BacktraceLine::Hidden(_) => Seq::<int>::empty(),
        }
    }
}

proof fn lemma_shown_positions_append(a: Seq<BacktraceLine>, b: Seq<BacktraceLine>)
    ensures
        shown_positions(a + b) == shown_positions(a) + shown_positions(b),
    decreases b.len(),
{
    if b.len() == 0 {
        assert(a + b =~= a);
        assert(shown_positions(a) + shown_positions(b) =~= shown_positions(a));
    } else {
        lemma_shown_positions_append(a, b.drop_last());
        assert((a + b).drop_last() =~= a + b.drop_last());
        assert(shown_positions(a + b) =~= shown_positions(a) + shown_positions(b));
    }
}

proof fn lemma_shown_positions_single(line: BacktraceLine)
    ensures
        shown_positions(seq![line]) == match line {
            BacktraceLine::Shown(i) => seq![i as int],
            BacktraceLine::Hidden(_) => Seq::<int>::empty(),
        },
{
    reveal_with_fuel(shown_positions, 2);
    assert(seq![line].drop_last() =~= Seq::<BacktraceLine>::empty());
    assert(shown_positions(seq![line]) =~= match line {
        BacktraceLine::Shown(i) => seq![i as int],
        BacktraceLine::Hidden(_) => Seq::<int>::empty(),
    });
}

proof fn lemma_shown_lines_positions(frames: Seq<&Frame>, k: nat)
    requires
        k <= frames.len(),
        frames.len() <= usize::MAX,
    ensures
        shown_positions(shown_lines(frames, k)) == Seq::new(k, |i: int| i),
    decreases k,
{
    if k == 0 {
        assert(shown_positions(shown_lines(frames, k)) =~= Seq::new(k, |i: int| i));
    } else {
        let i = k - 1;
        let gap = frames[i].n - previous_number(frames, i) - 1;
        lemma_shown_lines_positions(frames, (k - 1) as nat);
        lemma_shown_positions_append(shown_lines(frames, (k - 1) as nat), hidden_notice(gap));
        lemma_shown_positions_append(
            shown_lines(frames, (k - 1) as nat) + hidden_notice(gap),
            seq![BacktraceLine::Shown(i as usize)],
        );
        lemma_shown_positions_single(BacktraceLine::Shown(i as usize));
        if gap != 0 {
            lemma_shown_positions_single(BacktraceLine::Hidden(gap as usize));
        } else {
            assert(hidden_notice(gap) =~= Seq::<BacktraceLine>::empty());
        }
        assert(shown_positions(shown_lines(frames, k)) =~= Seq::new(k, |i: int| i));
    }
}

/// A backtrace's layout shows each shown frame exactly once, in the order
/// of the list of shown frames.
pub proof fn layout_shows_each_frame_once_in_order(frames: Seq<&Frame>, last: int)
    requires
        frames.len() <= usize::MAX,
    ensures
        shown_positions(layout(frames, last)) == Seq::new(frames.len(), |i: int| i),
{
    let k = frames.len();
    lemma_shown_lines_positions(frames, k);
    let shown_last = previous_number(frames, k as int);
    let tail = if shown_last < last {
        seq![BacktraceLine::Hidden((last - shown_last) as usize)]
    } else {
        seq![]
    };
    lemma_shown_positions_append(shown_lines(frames, k), tail);
    if shown_last < last {
        lemma_shown_positions_single(BacktraceLine::Hidden((last - shown_last) as usize));
    } else {
        assert(shown_positions(tail) =~= Seq::<int>::empty());
    }
    assert(shown_positions(layout(frames, last)) =~= Seq::new(frames.len(), |i: int| i));
}

/// The notice text for `n` hidden frames.
pub open spec fn hidden_message(n: nat) -> Seq<char> {
    seq!['⋮', ' '] + decimal_digits(n) + " frame"@ + (if n == 1 {
        Seq::<char>::empty()
    } else {
        seq!['s']
    }) + " hidden "@ + seq!['⋮']
}

/// The line that announces `n` hidden frames: the notice, centred in 80
/// columns.
pub fn hidden_frames_line(n: usize) -> (line: String)
    ensures
        line@ == center(hidden_message(n as nat), 80, ' '),
{
    let mut msg = String::new();
    push_char(&mut msg, '⋮');
    push_char(&mut msg, ' ');
    let digits = decimal(n as u64);
    msg.append(digits.as_str());
    msg.append(" frame");
    if n != 1 {
        push_char(&mut msg, 's');
    }
    msg.append(" hidden ");
    push_char(&mut msg, '⋮');
    assert(msg@ =~= hidden_message(n as nat));
    centered(msg.as_str(), 80, ' ')
}

/// The heading of a backtrace: " BACKTRACE ", centred in 80 columns of '━'.
pub fn backtrace_heading() -> (line: String)
    ensures
        line@ == center(" BACKTRACE "@, 80, '━'),
{
    let title = string_of(" BACKTRACE ");
    centered(title.as_str(), 80, '━')
}

/// The text printed in place of a backtrace whose frames were all hidden.
pub fn empty_backtrace_text() -> (text: String)
    ensures
        text@ == "\n<empty backtrace>"@,
{
    string_of("\n<empty backtrace>")
}

/// The frame numbers are at least 1 and pairwise distinct, as the numbers
/// of frames taken from one backtrace are.
pub open spec fn distinctly_numbered(frames: Seq<&Frame>) -> bool {
    &&& forall|i: int| 0 <= i < frames.len() ==> (#[trigger] frames[i]).n >= 1
    &&& forall|i: int, j: int|
        0 <= i < frames.len() && 0 <= j < frames.len() && i != j ==> frames[i].n != frames[j].n
}

proof fn lemma_sorted_permutation_is_strict(s: Seq<&Frame>, t: Seq<&Frame>)
    requires
        s.to_multiset() == t.to_multiset(),
        distinctly_numbered(t),
        sorted_by_number(s),
    ensures
        strictly_numbered(s),
{
    broadcast use vstd::seq_lib::group_to_multiset_ensures;

    assert(t.no_duplicates());
    t.lemma_multiset_has_no_duplicates();
    s.lemma_multiset_has_no_duplicates_conv();
    assert forall|i: int| 0 <= i < s.len() implies exists|p: int|
        0 <= p < t.len() && t[p] == #[trigger] s[i] by {
        assert(s.contains(s[i]));
        assert(s.to_multiset().count(s[i]) > 0);
        assert(t.contains(s[i]));
    }
    assert forall|i: int| 0 <= i < s.len() implies (#[trigger] s[i]).n >= 1 by {
        let p = choose|p: int| 0 <= p < t.len() && t[p] == s[i];
    }
    assert forall|i: int, j: int| 0 <= i < j < s.len() implies s[i].n < s[j].n by {
        if s[i].n == s[j].n {
            let p = choose|p: int| 0 <= p < t.len() && t[p] == s[i];
            let q = choose|q: int| 0 <= q < t.len() && t[q] == s[j];
            assert(p == q);
            assert(s[i] == s[j]);
        }
    }
}

/// The shown frames of a backtrace, sorted by frame number, and the lines
/// that print them, out of the frames numbered 1 to `last`; `None` where
/// every frame is hidden.
pub fn arrange_backtrace<'a>(filtered: Vec<&'a Frame>, last: usize) -> (r: Option<
    (Vec<&'a Frame>, Vec<BacktraceLine>),
>)
    requires
        distinctly_numbered(filtered@),
    ensures
        match r {
            None => filtered@.len() == 0,
            Some((sorted, lines)) => {
                &&& filtered@.len() > 0
                &&& sorted@.to_multiset() == filtered@.to_multiset()
                &&& sorted_by_number(sorted@)
                &&& strictly_numbered(sorted@)
                &&& lines@ == layout(sorted@, last as int)
            },
        },
{
    if filtered.len() == 0 {
        return None;
    }
    let ghost given = filtered@;
    let mut sorted = filtered;
    sort_by_number(&mut sorted);
    proof {
        lemma_sorted_permutation_is_strict(sorted@, given);
    }
    let lines = backtrace_layout(&sorted, last);
    Some((sorted, lines))
}

/// References to the frames, in order.
pub fn frame_refs<'a>(frames: &'a Vec<Frame>) -> (refs: Vec<&'a Frame>)
    ensures
        refs@.len() == frames@.len(),
        forall|i: int| 0 <= i < refs@.len() ==> *(#[trigger] refs@[i]) == frames@[i],
{
    let mut refs: Vec<&'a Frame> = Vec::new();
    let mut i: usize = 0;
    while i < frames.len()
        invariant
            0 <= i <= frames@.len(),
            refs@.len() == i,
            forall|k: int| 0 <= k < i ==> *(#[trigger] refs@[k]) == frames@[k],
        decreases frames.len() - i,
    {
        refs.push(&frames[i]);
        i = i + 1;
    }
    refs
}

/// Frames numbered from 1 in order, as `number_frames` numbers them, are
/// distinctly numbered: with only the built-in filters, which keep that
/// property, the frames of a backtrace can always be laid out.
pub proof fn numbered_frames_are_distinct(frames: Seq<&Frame>)
    requires
        forall|i: int| 0 <= i < frames.len() ==> (#[trigger] frames[i]).n == i + 1,
    ensures
        distinctly_numbered(frames),
{
}

/// The line that announces `n` hidden frames, in the hidden-frames style.
pub fn hidden_frames_text(n: usize, styles: &Styles) -> (t: StyledText)
    ensures
        t.text@ == center(hidden_message(n as nat), 80, ' '),
        t.style == Some(styles.hidden_frames),
{
    styled(hidden_frames_line(n), Some(styles.hidden_frames))
}

/// What the lines of a backtrace print, after its heading: each on a new
/// line, a notice of hidden frames in the hidden-frames style, or the texts
/// of the shown frame at that position.
pub open spec fn backtrace_body(
    lines: Seq<BacktraceLine>,
    shown: Seq<Seq<(Seq<char>, Option<Style>)>>,
    hidden: Style,
) -> Seq<(Seq<char>, Option<Style>)>
    decreases lines.len(),
{
    if lines.len() == 0 {
        seq![]
    } else {
        backtrace_body(lines.drop_last(), shown, hidden) + seq![("\n"@, None)] + match lines.last() {
            BacktraceLine::Hidden(k) => seq![(center(hidden_message(k as nat), 80, ' '), Some(hidden))],
            BacktraceLine::Shown(i) => shown[i as int],
        }
    }
}

/// The heading of a backtrace, unstyled.
pub open spec fn heading_text() -> (Seq<char>, Option<Style>) {
    (center(" BACKTRACE "@, 80, '━'), None)
}

/// The styled texts of each shown frame.
pub open spec fn texts_views(v: Seq<Vec<StyledText>>) -> Seq<Seq<(Seq<char>, Option<Style>)>> {
    v.map_values(|t: Vec<StyledText>| styled_view(t@))
}

/// What a backtrace prints: its heading and its lines, given the texts of
/// each shown frame, by position.
pub fn backtrace_texts(lines: &Vec<BacktraceLine>, shown: &Vec<Vec<StyledText>>, styles: &Styles) -> (texts:
    Vec<StyledText>)
    requires
        forall|j: int|
            0 <= j < lines@.len() ==> match #[trigger] lines@[j] {
                BacktraceLine::Shown(i) => i < shown@.len(),
                BacktraceLine::Hidden(_) => true,
            },
    ensures
        styled_view(texts@) == seq![heading_text()] + backtrace_body(
            lines@,
            texts_views(shown@),
            styles.hidden_frames,
        ),
{
    let mut texts: Vec<StyledText> = Vec::new();
    texts.push(styled(backtrace_heading(), None));
    assert(styled_view(texts@) =~= seq![heading_text()] + backtrace_body(
        lines@.take(0),
        texts_views(shown@),
        styles.hidden_frames,
    ));
    let mut j: usize = 0;
    while j < lines.len()
        invariant
            0 <= j <= lines@.len(),
            forall|m: int|
                0 <= m < lines@.len() ==> match #[trigger] lines@[m] {
                    BacktraceLine::Shown(i) => i < shown@.len(),
                    BacktraceLine::Hidden(_) => true,
                },
            styled_view(texts@) == seq![heading_text()] + backtrace_body(
                lines@.take(j as int),
                texts_views(shown@),
                styles.hidden_frames,
            ),
        decreases lines.len() - j,
    {
        let ghost before = texts@;
        texts.push(plain_text("\n"));
        let ghost with_newline = texts@;
        match lines[j] {
            BacktraceLine::Hidden(k) => {
                texts.push(hidden_frames_text(k, styles));
            },
            BacktraceLine::Shown(i) => {
                let mut frame_texts = copy_texts(&shown[i]);
                texts.append(&mut frame_texts);
            },
        }
        proof {
            assert(lines@.take(j + 1).drop_last() =~= lines@.take(j as int));
            assert(lines@.take(j + 1).last() == lines@[j as int]);
            let tail = match lines@[j as int] {
                BacktraceLine::Hidden(k) => seq![
                    (center(hidden_message(k as nat), 80, ' '), Some(styles.hidden_frames)),
                ],
                BacktraceLine::Shown(i) => texts_views(shown@)[i as int],
            };
            assert(styled_view(texts@) =~= styled_view(before) + seq![("\n"@, None)] + tail);
        }
        j = j + 1;
    }
    assert(lines@.take(lines.len() as int) =~= lines@);
    texts
}

/// What a backtrace prints when every frame is hidden.
pub fn empty_backtrace_texts() -> (texts: Vec<StyledText>)
    ensures
        styled_view(texts@) == seq![heading_text(), ("\n<empty backtrace>"@, None)],
{
    let mut texts: Vec<StyledText> = Vec::new();
    texts.push(styled(backtrace_heading(), None));
    texts.push(styled(empty_backtrace_text(), None));
    assert(styled_view(texts@) =~= seq![heading_text(), ("\n<empty backtrace>"@, None)]);
    texts
}

proof fn lemma_body_grows(
    lines: Seq<BacktraceLine>,
    shown: Seq<Seq<(Seq<char>, Option<Style>)>>,
    hidden: Style,
    a: int,
    b: int,
)
    requires
        0 <= a <= b <= lines.len(),
    ensures
        backtrace_body(lines.take(b), shown, hidden).len() >= backtrace_body(
            lines.take(a),
            shown,
            hidden,
        ).len() + (b - a),
        backtrace_body(lines.take(b), shown, hidden).subrange(
            0,
            backtrace_body(lines.take(a), shown, hidden).len() as int,
        ) == backtrace_body(lines.take(a), shown, hidden),
    decreases b - a,
{
    let pa = backtrace_body(lines.take(a), shown, hidden);
    if a == b {
        assert(pa.subrange(0, pa.len() as int) =~= pa);
    } else {
        lemma_body_grows(lines, shown, hidden, a, b - 1);
        assert(lines.take(b).drop_last() =~= lines.take(b - 1));
        let pb1 = backtrace_body(lines.take(b - 1), shown, hidden);
        let pb = backtrace_body(lines.take(b), shown, hidden);
        assert(pb.subrange(0, pb1.len() as int) =~= pb1);
        assert(pb.subrange(0, pa.len() as int) =~= pb1.subrange(0, pa.len() as int));
    }
}

/// Each line of a printed backtrace prints, at its own place and after a
/// line break, what it stands for: a shown line `Shown(i)` the texts of the
/// frame at position `i` of the shown frames (the frames sorted by number),
/// a notice the centred count of hidden frames in the hidden-frames style.
/// Later lines print later.
pub proof fn each_line_prints_what_it_stands_for(
    lines: Seq<BacktraceLine>,
    shown: Seq<Seq<(Seq<char>, Option<Style>)>>,
    hidden: Style,
    j: int,
    later: int,
)
    requires
        0 <= j < lines.len(),
    ensures
        backtrace_body(lines, shown, hidden).subrange(
            backtrace_body(lines.take(j), shown, hidden).len() as int,
            backtrace_body(lines.take(j), shown, hidden).len() + 1 + match lines[j] {
                BacktraceLine::Shown(i) => shown[i as int].len() as int,
                BacktraceLine::Hidden(_) => 1int,
            },
        ) == seq![("\n"@, None::<Style>)] + match lines[j] {
            BacktraceLine::Shown(i) => shown[i as int],
            BacktraceLine::Hidden(k) => seq![
                (center(hidden_message(k as nat), 80, ' '), Some(hidden)),
            ],
        },
        j < later <= lines.len() ==> backtrace_body(lines.take(j), shown, hidden).len() < backtrace_body(
            lines.take(later),
            shown,
            hidden,
        ).len(),
{
    let piece = match lines[j] {
        BacktraceLine::Shown(i) => shown[i as int],
        BacktraceLine::Hidden(k) => seq![(center(hidden_message(k as nat), 80, ' '), Some(hidden))],
    };
    let pj = backtrace_body(lines.take(j), shown, hidden);
    assert(lines.take(j + 1).drop_last() =~= lines.take(j));
    assert(lines.take(j + 1).last() == lines[j]);
    let pj1 = backtrace_body(lines.take(j + 1), shown, hidden);
    let w = seq![("\n"@, None::<Style>)] + piece;
    assert(pj1 =~= pj + w);
    lemma_body_grows(lines, shown, hidden, j + 1, lines.len() as int);
    assert(lines.take(lines.len() as int) =~= lines);
    let all = backtrace_body(lines, shown, hidden);
    assert(all.subrange(0, pj1.len() as int) == pj1);
    assert forall|k: int| 0 <= k < w.len() implies all[pj.len() + k] == w[k] by {
        assert(all.subrange(0, pj1.len() as int)[pj.len() + k] == pj1[pj.len() + k]);
        assert(pj1[pj.len() + k] == w[k]);
    }
    assert(all.subrange(pj.len() as int, (pj.len() + w.len()) as int) =~= w);
    if j < later <= lines.len() {
        lemma_body_grows(lines, shown, hidden, j, later);
    }
}

} // verus!
