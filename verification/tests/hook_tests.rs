use color_eyre::hook::default_printer;
use color_eyre::install::{after_install_step, first_install_step};
use color_eyre::{FrameFilter, HookBuilder, InstallError, InstallOutcome, InstallStep, Styles, Verbosity};

type Builder = HookBuilder<u32, &'static str, bool, String>;

fn kinds(filters: &[FrameFilter<u32>]) -> Vec<String> {
    filters
        .iter()
        .map(|f| match f {
            FrameFilter::DefaultFrames => "default".to_string(),
            FrameFilter::EyreFrames => "eyre".to_string(),
            FrameFilter::Custom(n) => format!("custom {}", n),
        })
        .collect()
}

#[test]
fn blank_builder_has_minimal_features() {
    let b = Builder::blank();
    assert!(b.filters.is_empty());
    assert!(!b.capture_span_trace_by_default);
    assert!(b.display_env_section);
    assert!(b.panic_section.is_none());
    assert!(b.panic_message.is_none());
    assert_eq!(b.styles, Styles::dark());
    assert!(b.issue_url.is_none());
    assert!(b.issue_metadata.is_empty());
    assert!(b.issue_filter.is_none());
}

#[test]
fn new_builder_adds_default_filters_and_captures_span_traces() {
    let b = Builder::new();
    assert_eq!(kinds(&b.filters), vec!["default", "eyre"]);
    assert!(b.capture_span_trace_by_default);
    assert_eq!(b.styles, Styles::dark());
    let d = Builder::default();
    assert_eq!(kinds(&d.filters), vec!["default", "eyre"]);
    assert!(d.capture_span_trace_by_default);
}

#[test]
fn setters_record_their_settings() {
    let b = Builder::blank()
        .styles(Styles::light())
        .panic_section("consider reporting the bug".to_string())
        .panic_message("mine")
        .issue_url("https://example.org/issues/new".to_string())
        .add_issue_metadata("version".to_string(), "1.0".to_string())
        .add_issue_metadata("os".to_string(), "linux".to_string())
        .issue_filter(true)
        .capture_span_trace_by_default(true)
        .display_env_section(false)
        .add_frame_filter(7)
        .add_default_filters();
    assert_eq!(b.styles, Styles::light());
    assert_eq!(b.panic_section.as_deref(), Some("consider reporting the bug"));
    assert_eq!(b.panic_message, Some("mine"));
    assert_eq!(b.issue_url.as_deref(), Some("https://example.org/issues/new"));
    assert_eq!(
        b.issue_metadata,
        vec![("version".to_string(), "1.0".to_string()), ("os".to_string(), "linux".to_string())]
    );
    assert_eq!(b.issue_filter.as_deref(), Some(&true));
    assert!(b.capture_span_trace_by_default);
    assert!(!b.display_env_section);
    assert_eq!(kinds(&b.filters), vec!["custom 7", "default", "eyre"]);
}

#[test]
fn both_hooks_share_the_configuration() {
    let b = Builder::new()
        .styles(Styles::light())
        .issue_url("u".to_string())
        .add_issue_metadata("k".to_string(), "v".to_string())
        .issue_filter(false)
        .display_env_section(false);
    let (panic_hook, eyre_hook) = b.into_hooks();
    assert_eq!(kinds(&panic_hook.filters), vec!["default", "eyre"]);
    assert_eq!(panic_hook.styles, Styles::light());
    assert_eq!(eyre_hook.styles, Styles::light());
    assert_eq!(panic_hook.issue_url.as_deref(), Some("u"));
    assert_eq!(eyre_hook.issue_url.as_deref(), Some("u"));
    assert_eq!(*panic_hook.issue_metadata, *eyre_hook.issue_metadata);
    assert_eq!(panic_hook.issue_metadata.len(), 1);
    assert_eq!(panic_hook.issue_filter.as_deref(), Some(&false));
    assert_eq!(eyre_hook.issue_filter.as_deref(), Some(&false));
    assert!(!panic_hook.display_env_section);
    assert!(!eyre_hook.display_env_section);
    assert!(panic_hook.capture_span_trace_by_default);
    assert!(eyre_hook.capture_span_trace_by_default);
}

#[test]
fn the_default_printer_is_the_default_configuration() {
    let hook = default_printer::<u32, &'static str, bool, String>();
    assert_eq!(kinds(&hook.filters), vec!["default", "eyre"]);
    assert!(hook.section.is_none());
    assert_eq!(hook.styles, Styles::dark());
    assert!(hook.capture_span_trace_by_default);
}

#[test]
fn the_report_plan_follows_verbosity_and_settings() {
    let (hook, _) = Builder::new().panic_section("s".to_string()).into_hooks();
    let plan = hook.report_plan(Verbosity::Minimal, Some("0"));
    assert!(!plan.capture_backtrace);
    assert!(!plan.capture_span_trace);
    assert!(plan.show_section);
    assert!(plan.show_env_section);
    let plan = hook.report_plan(Verbosity::Medium, None);
    assert!(plan.capture_backtrace);
    assert!(plan.capture_span_trace);
}

#[test]
fn issue_links_need_a_url_and_the_filter_s_approval() {
    let (no_url, _) = Builder::new().into_hooks();
    assert!(!no_url.consults_issue_filter());
    assert!(!no_url.shows_issue_section(None));
    let (url_only, _) = Builder::new().issue_url("u".to_string()).into_hooks();
    assert!(!url_only.consults_issue_filter());
    assert!(url_only.shows_issue_section(None));
    let (filtered, _) = Builder::new().issue_url("u".to_string()).issue_filter(true).into_hooks();
    assert!(filtered.consults_issue_filter());
    assert!(filtered.shows_issue_section(Some(true)));
    assert!(!filtered.shows_issue_section(Some(false)));
}

#[test]
fn the_handler_skips_span_traces_the_error_already_has() {
    let (_, eyre_hook) = Builder::new().into_hooks();
    let h = eyre_hook.default(Verbosity::Full, None, false);
    assert!(h.capture_backtrace);
    assert!(h.capture_span_trace);
    let h = eyre_hook.default(Verbosity::Minimal, None, true);
    assert!(!h.capture_backtrace);
    assert!(!h.capture_span_trace);
    assert_eq!(h.styles, Styles::dark());
}

#[test]
fn installing_runs_every_step_in_order() {
    let mut step = first_install_step();
    let mut seen = vec![step];
    loop {
        match after_install_step(step, true) {
            InstallOutcome::Next(next) => {
                step = next;
                seen.push(step);
            }
            InstallOutcome::Done => break,
            InstallOutcome::Failed(e) => panic!("unexpected failure {:?}", e),
            InstallOutcome::ErrorHookRefused => panic!("unexpected refusal"),
        }
    }
    assert_eq!(
        seen,
        vec![
            InstallStep::SetStyles,
            InstallStep::SetSpanTraceStyles,
            InstallStep::SetErrorHook,
            InstallStep::SetPanicHook,
            InstallStep::StoreConfig,
        ]
    );
}

#[test]
fn each_failed_step_has_its_error() {
    assert_eq!(after_install_step(InstallStep::SetStyles, false), InstallOutcome::Failed(InstallError::StylesAlreadySet));
    assert_eq!(
        after_install_step(InstallStep::SetSpanTraceStyles, false),
        InstallOutcome::Failed(InstallError::SpanTraceStylesAlreadySet)
    );
    assert_eq!(after_install_step(InstallStep::SetErrorHook, false), InstallOutcome::ErrorHookRefused);
    assert_eq!(after_install_step(InstallStep::SetPanicHook, false), InstallOutcome::Next(InstallStep::StoreConfig));
    assert_eq!(after_install_step(InstallStep::StoreConfig, false), InstallOutcome::Failed(InstallError::ConfigAlreadySet));
    assert_eq!(
        InstallError::StylesAlreadySet.message(),
        "could not set the provided `Styles` globally as another was already set"
    );
    assert_eq!(
        InstallError::ConfigAlreadySet.message(),
        "could not install the BacktracePrinter as another was already installed"
    );
    assert_eq!(
        InstallError::SpanTraceStylesAlreadySet.message(),
        "could not set the provided `Styles` via `color_backtrace::set_styles` globally as another was already set"
    );
}
