//! The built-in frame filters.
use vstd::prelude::*;
use crate::backtrace::distinctly_numbered;
use crate::frame::Frame;
use crate::text::{has_prefix_among, starts_with_any, str_views};

verus! {

broadcast use vstd::string::group_string_axioms;

/// A filter in the list of frame filters of a hook: one of the two
/// built-in filters, or a filter of the user's own.
pub enum FrameFilter<F> {
    /// Hides the frames before the panic and after the runtime's start-up code.
    DefaultFrames,
    /// Hides the frames of the error reporting machinery.
    EyreFrames,
    /// A filter of the user's own.
    Custom(F),
}

/// The position of the first element of `s` that satisfies `p`, if any.
pub open spec fn first_index_where<T>(s: Seq<T>, p: spec_fn(T) -> bool) -> Option<int> {
    if exists|i: int| 0 <= i < s.len() && p(s[i]) && (forall|j: int| 0 <= j < i ==> !p(s[j])) {
        Some(choose|i: int| 0 <= i < s.len() && p(s[i]) && (forall|j: int| 0 <= j < i ==> !p(s[j])))
    } else {
        None
    }
}

/// The position of the last element of `s` that satisfies `p`, if any.
pub open spec fn last_index_where<T>(s: Seq<T>, p: spec_fn(T) -> bool) -> Option<int> {
    if exists|i: int|
        0 <= i < s.len() && p(s[i]) && (forall|j: int| i < j < s.len() ==> !p(s[j])) {
        Some(
            choose|i: int|
                0 <= i < s.len() && p(s[i]) && (forall|j: int| i < j < s.len() ==> !p(s[j])),
        )
    } else {
        None
    }
}

/// Frames called after the panic began.
pub open spec fn post_panic_pred<'a>() -> spec_fn(&'a Frame) -> bool {
    |f: &Frame| f.spec_is_post_panic_code()
}

/// Frames of the runtime's start-up code.
pub open spec fn runtime_init_pred<'a>() -> spec_fn(&'a Frame) -> bool {
    |f: &Frame| f.spec_is_runtime_init_code()
}

/// The smallest frame number that the default filter keeps: two more than
/// the position of the last post-panic frame, or 0 if there is none.
pub open spec fn top_cutoff(frames: Seq<&Frame>) -> int {
    match last_index_where(frames, post_panic_pred()) {
        Some(i) => i + 2,
        None => 0,
    }
}

/// The largest frame number that the default filter keeps: the position of
/// the first frame of the runtime's start-up code, or the number of frames
/// if there is none.
pub open spec fn bottom_cutoff(frames: Seq<&Frame>) -> int {
    match first_index_where(frames, runtime_init_pred()) {
        Some(i) => i,
        None => frames.len() as int,
    }
}

/// The frames that the default filter keeps, out of `frames`.
pub open spec fn default_keeps(frames: Seq<&Frame>) -> spec_fn(&Frame) -> bool {
    |f: &Frame| top_cutoff(frames) <= f.n <= bottom_cutoff(frames)
}

/// Symbol prefixes of the error reporting machinery.
pub open spec fn eyre_symbol_prefixes() -> Seq<Seq<char>> {
    seq!["<color_eyre::Handler as eyre::EyreHandler>::default"@, "eyre::"@, "color_eyre::"@]
}

/// The frames that the filter of the error reporting machinery keeps: those
/// with a name that starts with none of its prefixes. Frames without a
/// name are dropped.
pub open spec fn eyre_keeps<'a>() -> spec_fn(&'a Frame) -> bool {
    |f: &Frame|
        match f.name {
            Some(name) => !has_prefix_among(name@, eyre_symbol_prefixes()),
            None => false,
        }
}

fn last_post_panic_position(frames: &Vec<&Frame>) -> (r: Option<usize>)
    ensures
        match r {
            Some(i) => last_index_where(frames@, post_panic_pred()) == Some(i as int),
            None => last_index_where(frames@, post_panic_pred()) is None,
        },
{
    let mut i = frames.len();
    while i > 0
        invariant
            0 <= i <= frames.len(),
            forall|j: int| i <= j < frames@.len() ==> !(#[trigger] frames@[j]).spec_is_post_panic_code(),
        decreases i,
    {
        if frames[i - 1].is_post_panic_code() {
            let k = i - 1;
            let ghost p = post_panic_pred();
            assert(0 <= k < frames@.len() && p(frames@[k as int]) && (forall|j: int|
                k < j < frames@.len() ==> !p(frames@[j])));
            return Some(k);
        }
        i = i - 1;
    }
    None
}

fn first_runtime_init_position(frames: &Vec<&Frame>) -> (r: Option<usize>)
    ensures
        match r {
            Some(i) => first_index_where(frames@, runtime_init_pred()) == Some(i as int),
            None => first_index_where(frames@, runtime_init_pred()) is None,
        },
{
    let mut i: usize = 0;
    while i < frames.len()
        invariant
            0 <= i <= frames.len(),
            forall|j: int| 0 <= j < i ==> !(#[trigger] frames@[j]).spec_is_runtime_init_code(),
        decreases frames.len() - i,
    {
        if frames[i].is_runtime_init_code() {
            let ghost p = runtime_init_pred();
            assert(0 <= i < frames@.len() && p(frames@[i as int]) && (forall|j: int|
                0 <= j < i ==> !p(frames@[j])));
            return Some(i);
        }
        i = i + 1;
    }
    None
}

/// Keeps the frames from two past the last post-panic frame up to the
/// first frame of the runtime's start-up code, by frame number.
pub fn default_frame_filter(frames: &mut Vec<&Frame>)
    ensures
        final(frames)@ == old(frames)@.filter(default_keeps(old(frames)@)),
{
    let ghost fs = frames@;
    let last_post = last_post_panic_position(frames);
    let bottom = match first_runtime_init_position(frames) {
        Some(i) => i,
        None => frames.len(),
    };
    let ghost keep = default_keeps(fs);
    let mut kept: Vec<&Frame> = Vec::new();
    let mut i: usize = 0;
    while i < frames.len()
        invariant
            frames@ == fs,
            0 <= i <= fs.len(),
            kept@ == fs.take(i as int).filter(keep),
            keep == default_keeps(fs),
            bottom == bottom_cutoff(fs),
            match last_post {
                Some(k) => top_cutoff(fs) == k + 2,
                None => top_cutoff(fs) == 0,
            },
        decreases fs.len() - i,
    {
        let frame = frames[i];
        let above_top = match last_post {
            Some(k) => frame.n >= 2 && frame.n - 2 >= k,
            None => true,
        };
        let ghost before = kept@;
        assert(above_top == (top_cutoff(fs) <= frame.n));
        if above_top && frame.n <= bottom {
            kept.push(frame);
        }
        proof {
            reveal(Seq::filter);
            assert(fs.take(i + 1).drop_last() =~= fs.take(i as int));
            assert(fs.take(i + 1).last() == frame);
        }
        i = i + 1;
    }
    assert(fs.take(fs.len() as int) =~= fs);
    *frames = kept;
}

fn eyre_symbol_prefix_list() -> (v: Vec<&'static str>)
    ensures
        str_views(v@) == eyre_symbol_prefixes(),
{
    let mut v: Vec<&'static str> = Vec::new();
    v.push("<color_eyre::Handler as eyre::EyreHandler>::default");
    v.push("eyre::");
    v.push("color_eyre::");
    assert(str_views(v@) =~= eyre_symbol_prefixes());
    v
}

/// Drops the frames of the error reporting machinery, and the frames without
/// a name.
pub fn eyre_frame_filters(frames: &mut Vec<&Frame>)
    ensures
        final(frames)@ == old(frames)@.filter(eyre_keeps()),
{
    let ghost fs = frames@;
    let prefixes = eyre_symbol_prefix_list();
    let mut kept: Vec<&Frame> = Vec::new();
    let mut i: usize = 0;
    while i < frames.len()
        invariant
            frames@ == fs,
            str_views(prefixes@) == eyre_symbol_prefixes(),
            0 <= i <= fs.len(),
            kept@ == fs.take(i as int).filter(eyre_keeps()),
        decreases fs.len() - i,
    {
        let frame = frames[i];
        let keep = match &frame.name {
            Some(name) => !starts_with_any(name.as_str(), &prefixes),
            None => false,
        };
        if keep {
            kept.push(frame);
        }
        proof {
            reveal(Seq::filter);
            assert(fs.take(i + 1).drop_last() =~= fs.take(i as int));
            assert(fs.take(i + 1).last() == frame);
        }
        i = i + 1;
    }
    assert(fs.take(fs.len() as int) =~= fs);
    *frames = kept;
}

/// Filtering frames by any rule keeps their numbers distinct and at least
/// 1, so that the frames a filter keeps can always be laid out; and every
/// frame it keeps is one of the frames it was given.
pub proof fn filtering_keeps_numbers_distinct(frames: Seq<&Frame>, keep: spec_fn(&Frame) -> bool)
    requires
        distinctly_numbered(frames),
    ensures
        distinctly_numbered(frames.filter(keep)),
        forall|i: int|
            0 <= i < frames.filter(keep).len() ==> frames.contains(#[trigger] frames.filter(keep)[i]),
    decreases frames.len(),
{
    reveal(Seq::filter);
    if frames.len() > 0 {
        let rest = frames.drop_last();
        let last = frames.last();
        assert(distinctly_numbered(rest)) by {
            assert forall|i: int| 0 <= i < rest.len() implies (#[trigger] rest[i]).n >= 1 by {
                assert(rest[i] == frames[i]);
            }
            assert forall|i: int, j: int|
                0 <= i < rest.len() && 0 <= j < rest.len() && i != j implies rest[i].n
                != rest[j].n by {
                assert(rest[i] == frames[i]);
                assert(rest[j] == frames[j]);
            }
        }
        filtering_keeps_numbers_distinct(rest, keep);
        let kept = rest.filter(keep);
        assert forall|i: int| 0 <= i < kept.len() implies (#[trigger] kept[i]).n != last.n by {
            let k = choose|k: int| 0 <= k < rest.len() && rest[k] == kept[i];
            assert(frames[k] == kept[i]);
            assert(frames[frames.len() - 1] == last);
        }
        assert forall|i: int| 0 <= i < kept.len() implies frames.contains(#[trigger] kept[i]) by {
            let k = choose|k: int| 0 <= k < rest.len() && rest[k] == kept[i];
            assert(frames[k] == kept[i]);
        }
        if keep(last) {
            let all = kept.push(last);
            assert(all == frames.filter(keep));
            assert forall|i: int| 0 <= i < all.len() implies frames.contains(#[trigger] all[i]) by {
                if i == all.len() - 1 {
                    assert(frames[frames.len() - 1] == last);
                } else {
                    assert(all[i] == kept[i]);
                }
            }
            assert forall|i: int, j: int|
                0 <= i < all.len() && 0 <= j < all.len() && i != j implies all[i].n
                != all[j].n by {
                if i == all.len() - 1 {
                    assert(all[j] == kept[j]);
                } else if j == all.len() - 1 {
                    assert(all[i] == kept[i]);
                } else {
                    assert(all[i] == kept[i]);
                    assert(all[j] == kept[j]);
                }
            }
            assert forall|i: int| 0 <= i < all.len() implies (#[trigger] all[i]).n >= 1 by {
                if i == all.len() - 1 {
                    assert(frames[frames.len() - 1] == last);
                } else {
                    assert(all[i] == kept[i]);
                }
            }
        }
    }
}

proof fn lemma_a_last_exists<T>(s: Seq<T>, p: spec_fn(T) -> bool, i0: int)
    requires
        0 <= i0 < s.len(),
        p(s[i0]),
    ensures
        last_index_where(s, p) is Some,
    decreases s.len() - i0,
{
    if exists|j: int| i0 < j < s.len() && p(s[j]) {
        let j = choose|j: int| i0 < j < s.len() && p(s[j]);
        lemma_a_last_exists(s, p, j);
    } else {
        assert(0 <= i0 < s.len() && p(s[i0]) && (forall|j: int| i0 < j < s.len() ==> !p(s[j])));
    }
}

proof fn lemma_a_first_exists<T>(s: Seq<T>, p: spec_fn(T) -> bool, i0: int)
    requires
        0 <= i0 < s.len(),
        p(s[i0]),
    ensures
        first_index_where(s, p) is Some,
    decreases i0,
{
    if exists|j: int| 0 <= j < i0 && p(s[j]) {
        let j = choose|j: int| 0 <= j < i0 && p(s[j]);
        lemma_a_first_exists(s, p, j);
    } else {
        assert(0 <= i0 < s.len() && p(s[i0]) && (forall|j: int| 0 <= j < i0 ==> !p(s[j])));
    }
}

/// The default filter keeps a frame exactly when its number is at least two
/// past the position of every post-panic frame (so that everything up to
/// the last of them, and the frame after it, is hidden), at most the
/// position of every frame of the runtime's start-up code, and at most the
/// number of frames.
pub proof fn default_filter_hides_the_panic_and_the_start_up(frames: Seq<&Frame>, f: &Frame)
    ensures
        default_keeps(frames)(f) <==> {
            &&& forall|i: int|
                0 <= i < frames.len() && (#[trigger] frames[i]).spec_is_post_panic_code() ==> f.n
                    >= i + 2
            &&& forall|j: int|
                0 <= j < frames.len() && (#[trigger] frames[j]).spec_is_runtime_init_code() ==> f.n
                    <= j
            &&& f.n <= frames.len()
        },
{
    let pp = post_panic_pred();
    let ri = runtime_init_pred();
    let after_panic = forall|i: int|
        0 <= i < frames.len() && (#[trigger] frames[i]).spec_is_post_panic_code() ==> f.n >= i + 2;
    let before_start = forall|j: int|
        0 <= j < frames.len() && (#[trigger] frames[j]).spec_is_runtime_init_code() ==> f.n <= j;
    match last_index_where(frames, pp) {
        Some(k) => {
            assert(0 <= k < frames.len() && pp(frames[k]) && (forall|j: int|
                k < j < frames.len() ==> !pp(frames[j])));
            assert(after_panic <==> f.n >= k + 2) by {
                if f.n >= k + 2 {
                    assert forall|i: int|
                        0 <= i < frames.len() && (#[trigger] frames[i]).spec_is_post_panic_code()
                            implies f.n >= i + 2 by {
                        if i > k {
                            assert(!pp(frames[i]));
                        }
                    }
                }
                if after_panic {
                    assert(frames[k].spec_is_post_panic_code());
                }
            }
        },
        None => {
            assert(after_panic) by {
                assert forall|i: int|
                    0 <= i < frames.len() && (#[trigger] frames[i]).spec_is_post_panic_code()
                        implies f.n >= i + 2 by {
                    assert(pp(frames[i]));
                    lemma_a_last_exists(frames, pp, i);
                }
            }
        },
    }
    match first_index_where(frames, ri) {
        Some(k) => {
            assert(0 <= k < frames.len() && ri(frames[k]) && (forall|j: int|
                0 <= j < k ==> !ri(frames[j])));
            assert((before_start && f.n <= frames.len()) <==> f.n <= k) by {
                if f.n <= k {
                    assert forall|j: int|
                        0 <= j < frames.len() && (#[trigger] frames[j]).spec_is_runtime_init_code()
                            implies f.n <= j by {
                        if j < k {
                            assert(!ri(frames[j]));
                        }
                    }
                }
                if before_start {
                    assert(frames[k].spec_is_runtime_init_code());
                }
            }
        },
        None => {
            assert(before_start) by {
                assert forall|j: int|
                    0 <= j < frames.len() && (#[trigger] frames[j]).spec_is_runtime_init_code()
                        implies f.n <= j by {
                    assert(ri(frames[j]));
                    lemma_a_first_exists(frames, ri, j);
                }
            }
        },
    }
}

/// The filter of the error reporting machinery keeps a frame exactly when
/// it has a name and the name starts with none of "eyre::",
/// "color_eyre::" and "<color_eyre::Handler as eyre::EyreHandler>::default";
/// a frame without a name is hidden.
pub proof fn eyre_filter_hides_the_reporting_machinery(f: &Frame)
    ensures
        eyre_keeps()(f) <==> match f.name {
            Some(n) => !crate::text::is_prefix_of("eyre::"@, n@) && !crate::text::is_prefix_of(
                "color_eyre::"@,
                n@,
            ) && !crate::text::is_prefix_of(
                "<color_eyre::Handler as eyre::EyreHandler>::default"@,
                n@,
            ),
            None => false,
        },
{
    let ps = eyre_symbol_prefixes();
    assert(ps[0] == "<color_eyre::Handler as eyre::EyreHandler>::default"@);
    assert(ps[1] == "eyre::"@);
    assert(ps[2] == "color_eyre::"@);
    match f.name {
        Some(n) => {
            if has_prefix_among(n@, ps) {
                let i = choose|i: int|
                    0 <= i < ps.len() && crate::text::is_prefix_of(#[trigger] ps[i], n@);
                assert(i == 0 || i == 1 || i == 2);
            }
        },
        None => {},
    }
}

} // verus!
