use color_eyre::{default_frame_filter, eyre_frame_filters, number_frames, Frame, FrameSymbol, Styles};

fn frame(n: usize, name: Option<&str>, file: Option<&str>) -> Frame {
    Frame::new(n, name.map(|s| s.to_string()), Some(7), file.map(|s| s.to_string()), true, Styles::dark())
}

#[test]
fn std_symbols_are_dependency_code() {
    assert!(frame(1, Some("std::rt::lang_start"), None).is_dependency_code());
    assert!(frame(1, Some("main"), None).is_dependency_code());
    assert!(frame(1, Some("mainly_mine"), None).is_dependency_code());
    assert!(!frame(1, Some("my_crate::run"), None).is_dependency_code());
    assert!(!frame(1, None, None).is_dependency_code());
}

#[test]
fn files_of_the_toolchain_and_registry_are_dependency_code() {
    assert!(frame(1, Some("x"), Some("/rustc/abc/src/lib.rs")).is_dependency_code());
    assert!(frame(1, Some("x"), Some("src/libtest/lib.rs")).is_dependency_code());
    assert!(frame(
        1,
        Some("x"),
        Some("/home/me/.cargo/registry/src/github.com-1ecc6299db9ec823/eyre-0.6.0/src/lib.rs")
    )
    .is_dependency_code());
    assert!(!frame(1, Some("x"), Some("/home/me/project/src/main.rs")).is_dependency_code());
}

#[test]
fn post_panic_frames_are_recognised() {
    assert!(frame(1, Some("core::panicking::panic_fmt"), None).is_post_panic_code());
    assert!(frame(1, Some("rust_begin_unwind"), None).is_post_panic_code());
    assert!(frame(1, Some("<failure::error::Error as core::convert::From<F>>::from"), None).is_post_panic_code());
    assert!(!frame(1, Some("my_crate::run"), None).is_post_panic_code());
    assert!(!frame(1, None, None).is_post_panic_code());
}

#[test]
fn runtime_init_needs_a_name_and_a_file() {
    assert!(frame(1, Some("std::rt::lang_start::{{closure}}"), Some("x.rs")).is_runtime_init_code());
    assert!(!frame(1, Some("std::rt::lang_start::{{closure}}"), None).is_runtime_init_code());
    assert!(frame(1, Some("{{closure}}"), Some("src/libtest/lib.rs")).is_runtime_init_code());
    assert!(!frame(1, Some("{{closure}}"), Some("src/libtest/lib.rs2")).is_runtime_init_code());
    assert!(!frame(1, Some("{{closure}}x"), Some("src/libtest/lib.rs")).is_runtime_init_code());
}

#[test]
fn numbering_counts_from_one() {
    let symbols = vec![
        FrameSymbol { name: Some("a".to_string()), lineno: Some(3), filename: None, filename_is_unicode: true },
        FrameSymbol { name: None, lineno: None, filename: Some("b.rs".to_string()), filename_is_unicode: false },
    ];
    let frames = number_frames(symbols, Styles::light());
    assert_eq!(frames.len(), 2);
    assert_eq!(frames[0].n, 1);
    assert_eq!(frames[0].name.as_deref(), Some("a"));
    assert_eq!(frames[0].lineno, Some(3));
    assert_eq!(frames[1].n, 2);
    assert_eq!(frames[1].filename.as_deref(), Some("b.rs"));
    assert_eq!(frames[1].styles, Styles::light());
}

#[test]
fn default_filter_cuts_before_the_panic_and_after_the_runtime() {
    let frames = vec![
        frame(1, Some("backtrace::capture"), None),
        frame(2, Some("core::panicking::panic_fmt"), None),
        frame(3, Some("my_crate::inner"), None),
        frame(4, Some("my_crate::outer"), None),
        frame(5, Some("std::rt::lang_start::x"), Some("rt.rs")),
        frame(6, Some("main"), None),
    ];
    let mut refs: Vec<&Frame> = frames.iter().collect();
    default_frame_filter(&mut refs);
    // the last post-panic frame is at index 1, so numbers from 3 on stay;
    // the runtime starts at index 4, so numbers up to 4 stay
    let kept: Vec<usize> = refs.iter().map(|f| f.n).collect();
    assert_eq!(kept, vec![3, 4]);
}

#[test]
fn default_filter_without_markers_keeps_numbers_up_to_the_count() {
    let frames = vec![frame(1, Some("a"), None), frame(2, Some("b"), None), frame(9, Some("c"), None)];
    let mut refs: Vec<&Frame> = frames.iter().collect();
    default_frame_filter(&mut refs);
    let kept: Vec<usize> = refs.iter().map(|f| f.n).collect();
    assert_eq!(kept, vec![1, 2]);
}

#[test]
fn eyre_filter_drops_reporting_frames_and_nameless_frames() {
    let frames = vec![
        frame(1, Some("eyre::private::format_err"), None),
        frame(2, Some("my_crate::run"), None),
        frame(3, None, None),
        frame(4, Some("color_eyre::config::x"), None),
        frame(5, Some("<color_eyre::Handler as eyre::EyreHandler>::default"), None),
        frame(6, Some("eyrex"), None),
    ];
    let mut refs: Vec<&Frame> = frames.iter().collect();
    eyre_frame_filters(&mut refs);
    let kept: Vec<usize> = refs.iter().map(|f| f.n).collect();
    assert_eq!(kept, vec![2, 6]);
    // filtering again changes nothing
    eyre_frame_filters(&mut refs);
    let again: Vec<usize> = refs.iter().map(|f| f.n).collect();
    assert_eq!(again, vec![2, 6]);
}

#[test]
fn built_in_filters_keep_frame_numbers_distinct() {
    let frames = vec![
        frame(1, Some("core::panicking::panic_fmt"), None),
        frame(2, Some("my_crate::a"), None),
        frame(3, Some("eyre::x"), None),
        frame(4, Some("my_crate::b"), None),
    ];
    let mut refs = color_eyre::backtrace::frame_refs(&frames);
    default_frame_filter(&mut refs);
    eyre_frame_filters(&mut refs);
    let kept: Vec<usize> = refs.iter().map(|f| f.n).collect();
    assert_eq!(kept, vec![2, 4]);
    let mut sorted = kept.clone();
    sorted.dedup();
    assert_eq!(sorted, kept);
}
