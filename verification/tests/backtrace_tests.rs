use color_eyre::backtrace::{backtrace_heading, empty_backtrace_text, hidden_frames_line, sort_by_number};
use color_eyre::{arrange_backtrace, backtrace_layout, BacktraceLine, Frame, Styles};

fn frame(n: usize) -> Frame {
    Frame::new(n, Some(format!("f{}", n)), None, None, true, Styles::dark())
}

fn weight(lines: &[BacktraceLine]) -> usize {
    lines
        .iter()
        .map(|l| match l {
            BacktraceLine::Hidden(k) => *k,
            BacktraceLine::Shown(_) => 1,
        })
        .sum()
}

#[test]
fn layout_announces_hidden_frames_between_and_after() {
    let frames = vec![frame(2), frame(5)];
    let refs: Vec<&Frame> = frames.iter().collect();
    let lines = backtrace_layout(&refs, 7);
    assert_eq!(
        lines,
        vec![
            BacktraceLine::Hidden(1),
            BacktraceLine::Shown(0),
            BacktraceLine::Hidden(2),
            BacktraceLine::Shown(1),
            BacktraceLine::Hidden(2),
        ]
    );
    // every frame from 1 to 7 is accounted for once
    assert_eq!(weight(&lines), 7);
}

#[test]
fn layout_without_gaps_has_no_notices() {
    let frames = vec![frame(1), frame(2), frame(3)];
    let refs: Vec<&Frame> = frames.iter().collect();
    let lines = backtrace_layout(&refs, 3);
    assert_eq!(lines, vec![BacktraceLine::Shown(0), BacktraceLine::Shown(1), BacktraceLine::Shown(2)]);
    assert_eq!(weight(&lines), 3);
}

#[test]
fn sorting_orders_by_frame_number() {
    let frames = vec![frame(4), frame(1), frame(3)];
    let mut refs: Vec<&Frame> = frames.iter().collect();
    sort_by_number(&mut refs);
    let numbers: Vec<usize> = refs.iter().map(|f| f.n).collect();
    assert_eq!(numbers, vec![1, 3, 4]);
}

#[test]
fn arranging_sorts_then_lays_out() {
    let frames = vec![frame(6), frame(2)];
    let refs: Vec<&Frame> = frames.iter().collect();
    let (sorted, lines) = arrange_backtrace(refs, 6).unwrap();
    let numbers: Vec<usize> = sorted.iter().map(|f| f.n).collect();
    assert_eq!(numbers, vec![2, 6]);
    assert_eq!(
        lines,
        vec![BacktraceLine::Hidden(1), BacktraceLine::Shown(0), BacktraceLine::Hidden(3), BacktraceLine::Shown(1)]
    );
    assert!(arrange_backtrace(Vec::new(), 6).is_none());
}

#[test]
fn hidden_frames_line_matches_the_centred_notice() {
    assert_eq!(hidden_frames_line(1), format!("{:^80}", "⋮ 1 frame hidden ⋮"));
    assert_eq!(hidden_frames_line(12), format!("{:^80}", "⋮ 12 frames hidden ⋮"));
    assert_eq!(hidden_frames_line(0), format!("{:^80}", "⋮ 0 frames hidden ⋮"));
    assert_eq!(hidden_frames_line(1).chars().count(), 80);
}

#[test]
fn heading_is_centred_in_heavy_rules() {
    assert_eq!(backtrace_heading(), format!("{:━^80}", " BACKTRACE "));
    assert_eq!(empty_backtrace_text(), "\n<empty backtrace>");
}
