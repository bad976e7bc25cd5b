use color_eyre::verbosity::{
    captures_backtrace, frame_verbosity, lib_verbosity, panic_verbosity, shows_hidden_frames,
    shows_source, spantrace_capture_enabled,
};
use color_eyre::Verbosity;

#[test]
fn backtrace_settings_map_to_verbosity() {
    assert_eq!(panic_verbosity(Some("full")), Verbosity::Full);
    assert_eq!(panic_verbosity(Some("1")), Verbosity::Medium);
    assert_eq!(panic_verbosity(Some("")), Verbosity::Medium);
    assert_eq!(panic_verbosity(Some("0")), Verbosity::Minimal);
    assert_eq!(panic_verbosity(None), Verbosity::Minimal);
}

#[test]
fn the_library_setting_takes_precedence() {
    assert_eq!(lib_verbosity(Some("0"), Some("full")), Verbosity::Minimal);
    assert_eq!(lib_verbosity(None, Some("full")), Verbosity::Full);
    assert_eq!(lib_verbosity(Some("full"), None), Verbosity::Full);
    assert_eq!(lib_verbosity(None, None), Verbosity::Minimal);
}

#[test]
fn frames_use_the_panic_setting_while_panicking() {
    assert_eq!(frame_verbosity(true, Some("full"), Some("1")), Verbosity::Medium);
    assert_eq!(frame_verbosity(false, Some("full"), Some("1")), Verbosity::Full);
}

#[test]
fn source_only_at_full_and_backtraces_beyond_minimal() {
    assert!(shows_source(Verbosity::Full));
    assert!(!shows_source(Verbosity::Medium));
    assert!(captures_backtrace(Verbosity::Medium));
    assert!(!captures_backtrace(Verbosity::Minimal));
}

#[test]
fn span_trace_setting_overrides_the_default() {
    assert!(!spantrace_capture_enabled(Some("0"), true));
    assert!(spantrace_capture_enabled(Some("1"), false));
    assert!(spantrace_capture_enabled(Some("no"), false));
    assert!(spantrace_capture_enabled(None, true));
    assert!(!spantrace_capture_enabled(None, false));
}

#[test]
fn only_three_values_show_hidden_frames() {
    assert!(shows_hidden_frames(Some("1")));
    assert!(shows_hidden_frames(Some("on")));
    assert!(shows_hidden_frames(Some("y")));
    assert!(!shows_hidden_frames(Some("yes")));
    assert!(!shows_hidden_frames(Some("0")));
    assert!(!shows_hidden_frames(None));
}
