//! The builder of the panic and error report hooks, the hooks it makes, and
//! the decisions they take when a report is printed or installed.
//!
//! The parts of a hook that are the user's own code are type parameters:
//! `F` for a custom frame filter, `M` for a custom panic message, `I` for a
//! filter of issue links, `D` for a value displayed in a report (the custom
//! panic section and the values of the issue metadata). The library stores
//! them and hands them back; it never calls them.
use std::sync::Arc;
use vstd::prelude::*;
use crate::filter::FrameFilter;
use crate::style::{dark_styles, Styles};
use crate::verbosity::{captures_backtrace, spantrace_capture_enabled, Verbosity};

verus! {

broadcast use vstd::string::group_string_axioms;

/// Another handle on the value that `a` holds, by `Arc::clone` of the
/// standard library, which makes a new pointer to the same allocation; the
/// contract claims that the new handle holds the same value.
#[verifier::external_body]
fn share<T>(a: &Arc<T>) -> (r: Arc<T>)
    ensures
        r == *a,
{
    Arc::clone(a)
}

fn clone_text(s: &Option<String>) -> (r: Option<String>)
    ensures
        r == *s,
{
    match s {
        Some(t) => Some(t.clone()),
        None => None,
    }
}

fn share_opt<T>(a: &Option<Arc<T>>) -> (r: Option<Arc<T>>)
    ensures
        r == *a,
{
    match a {
        Some(t) => Some(share(t)),
        None => None,
    }
}

/// Builder for customizing the behavior of the global panic and error
/// report hooks.
pub struct HookBuilder<F, M, I, D> {
    /// The frame filters, applied in order.
    pub filters: Vec<FrameFilter<F>>,
    /// Whether span traces are captured when `RUST_SPANTRACE` is unset.
    pub capture_span_trace_by_default: bool,
    /// Whether the section on environment variables is displayed.
    pub display_env_section: bool,
    /// A custom section printed in panic reports.
    pub panic_section: Option<D>,
    /// A custom panic message; `None` prints the default one.
    pub panic_message: Option<M>,
    /// The styles reports are printed with.
    pub styles: Styles,
    /// The upstream repository's url for new issues.
    pub issue_url: Option<String>,
    /// Entries of the metadata table in issue links.
    pub issue_metadata: Vec<(String, D)>,
    /// Which errors get an issue link; `None` lets every error have one.
    pub issue_filter: Option<Arc<I>>,
}

/// The builder with minimal features enabled.
pub open spec fn is_blank<F, M, I, D>(b: HookBuilder<F, M, I, D>) -> bool {
    &&& b.filters@ == Seq::<FrameFilter<F>>::empty()
    &&& !b.capture_span_trace_by_default
    &&& b.display_env_section
    &&& b.panic_section is None
    &&& b.panic_message is None
    &&& b.styles == dark_styles()
    &&& b.issue_url is None
    &&& b.issue_metadata@.len() == 0
    &&& b.issue_filter is None
}

/// The built-in filters, in the order in which they are added by default.
pub open spec fn default_filters<F>() -> Seq<FrameFilter<F>> {
    seq![FrameFilter::DefaultFrames, FrameFilter::EyreFrames]
}

/// `b` and `c` agree on everything but the frame filters and the default
/// capture of span traces.
pub open spec fn same_but_filters_and_capture<F, M, I, D>(
    b: HookBuilder<F, M, I, D>,
    c: HookBuilder<F, M, I, D>,
) -> bool {
    &&& b.display_env_section == c.display_env_section
    &&& b.panic_section == c.panic_section
    &&& b.panic_message == c.panic_message
    &&& b.styles == c.styles
    &&& b.issue_url == c.issue_url
    &&& b.issue_metadata == c.issue_metadata
    &&& b.issue_filter == c.issue_filter
}

/// The part of the installed configuration that the panic hook uses.
pub struct PanicHook<F, M, I, D> {
    pub filters: Vec<FrameFilter<F>>,
    pub section: Option<D>,
    pub panic_message: Option<M>,
    pub styles: Styles,
    pub capture_span_trace_by_default: bool,
    pub display_env_section: bool,
    pub issue_url: Option<String>,
    pub issue_metadata: Arc<Vec<(String, D)>>,
    pub issue_filter: Option<Arc<I>>,
}

/// The part of the installed configuration that the error report hook uses.
pub struct EyreHook<I, D> {
    pub capture_span_trace_by_default: bool,
    pub display_env_section: bool,
    pub styles: Styles,
    pub issue_url: Option<String>,
    pub issue_metadata: Arc<Vec<(String, D)>>,
    pub issue_filter: Option<Arc<I>>,
}

impl<F, M, I, D> HookBuilder<F, M, I, D> {
    /// Construct a HookBuilder: a blank builder with the default filters
    /// added and span traces captured by default.
    pub fn new() -> (b: Self)
        ensures
            b.filters@ == default_filters::<F>(),
            b.capture_span_trace_by_default,
            b.display_env_section,
            b.panic_section is None,
            b.panic_message is None,
            b.styles == dark_styles(),
            b.issue_url is None,
            b.issue_metadata@.len() == 0,
            b.issue_filter is None,
    {
        Self::blank().add_default_filters().capture_span_trace_by_default(true)
    }

    /// Construct a HookBuilder with minimal features enabled.
    pub fn blank() -> (b: Self)
        ensures
            is_blank(b),
    {
        HookBuilder {
            filters: Vec::new(),
            capture_span_trace_by_default: false,
            display_env_section: true,
            panic_section: None,
            panic_message: None,
            styles: Styles::dark(),
            issue_url: None,
            issue_metadata: Vec::new(),
            issue_filter: None,
        }
    }

    /// Set the global styles that reports are printed with.
    pub fn styles(self, styles: Styles) -> (b: Self)
        ensures
            b == (HookBuilder { styles, ..self }),
    {
        HookBuilder { styles, ..self }
    }

    /// Add a custom section to the panic hook that will be printed in the
    /// panic message; it is displayed each time a report is printed.
    pub fn panic_section(self, section: D) -> (b: Self)
        ensures
            b == (HookBuilder { panic_section: Some(section), ..self }),
    {
        HookBuilder { panic_section: Some(section), ..self }
    }

    /// Overrides the main error message printing section at the start of
    /// panic reports.
    pub fn panic_message(self, message: M) -> (b: Self)
        ensures
            b == (HookBuilder { panic_message: Some(message), ..self }),
    {
        HookBuilder { panic_message: Some(message), ..self }
    }

    /// Set an upstream repository's url for new issues, and enable the
    /// generation of issue links.
    pub fn issue_url(self, url: String) -> (b: Self)
        ensures
            b == (HookBuilder { issue_url: Some(url), ..self }),
    {
        HookBuilder { issue_url: Some(url), ..self }
    }

    /// Add a new entry to the metadata table in generated issue links.
    pub fn add_issue_metadata(self, key: String, value: D) -> (b: Self)
        ensures
            b.issue_metadata@ == self.issue_metadata@.push((key, value)),
            b.filters == self.filters,
            b.capture_span_trace_by_default == self.capture_span_trace_by_default,
            b.display_env_section == self.display_env_section,
            b.panic_section == self.panic_section,
            b.panic_message == self.panic_message,
            b.styles == self.styles,
            b.issue_url == self.issue_url,
            b.issue_filter == self.issue_filter,
    {
        let mut b = self;
        b.issue_metadata.push((key, value));
        b
    }

    /// Configures a filter that decides which errors get an issue link.
    pub fn issue_filter(self, predicate: I) -> (b: Self)
        ensures
            b.issue_filter matches Some(f) && *f == predicate,
            b.filters == self.filters,
            b.capture_span_trace_by_default == self.capture_span_trace_by_default,
            b.display_env_section == self.display_env_section,
            b.panic_section == self.panic_section,
            b.panic_message == self.panic_message,
            b.styles == self.styles,
            b.issue_url == self.issue_url,
            b.issue_metadata == self.issue_metadata,
    {
        HookBuilder { issue_filter: Some(Arc::new(predicate)), ..self }
    }

    /// Configures the default capture mode for span traces in error reports
    /// and panics.
    pub fn capture_span_trace_by_default(self, cond: bool) -> (b: Self)
        ensures
            b == (HookBuilder { capture_span_trace_by_default: cond, ..self }),
    {
        HookBuilder { capture_span_trace_by_default: cond, ..self }
    }

    /// Configures whether the section on environment variables is displayed.
    pub fn display_env_section(self, cond: bool) -> (b: Self)
        ensures
            b == (HookBuilder { display_env_section: cond, ..self }),
    {
        HookBuilder { display_env_section: cond, ..self }
    }

    /// Add a custom filter to the end of the frame filters.
    pub fn add_frame_filter(self, filter: F) -> (b: Self)
        ensures
            b.filters@ == self.filters@.push(FrameFilter::Custom(filter)),
            b.capture_span_trace_by_default == self.capture_span_trace_by_default,
            same_but_filters_and_capture(b, self),
    {
        let mut b = self;
        b.filters.push(FrameFilter::Custom(filter));
        b
    }

    /// Add the default set of filters to this builder's configuration.
    pub fn add_default_filters(self) -> (b: Self)
        ensures
            b.filters@ == self.filters@ + default_filters::<F>(),
            b.capture_span_trace_by_default == self.capture_span_trace_by_default,
            same_but_filters_and_capture(b, self),
    {
        let mut b = self;
        b.filters.push(FrameFilter::DefaultFrames);
        b.filters.push(FrameFilter::EyreFrames);
        assert(b.filters@ =~= self.filters@ + default_filters::<F>());
        b
    }

    /// Splits the configuration into the panic hook and the error report
    /// hook. Both get the styles, the settings of span traces and of the
    /// environment section, and the issue settings, which they share.
    pub fn into_hooks(self) -> (hooks: (PanicHook<F, M, I, D>, EyreHook<I, D>))
        ensures
            hooks.0.filters == self.filters,
            hooks.0.section == self.panic_section,
            hooks.0.panic_message == self.panic_message,
            hooks.0.styles == self.styles,
            hooks.0.capture_span_trace_by_default == self.capture_span_trace_by_default,
            hooks.0.display_env_section == self.display_env_section,
            hooks.0.issue_url == self.issue_url,
            *hooks.0.issue_metadata == self.issue_metadata,
            hooks.0.issue_filter == self.issue_filter,
            hooks.1.capture_span_trace_by_default == self.capture_span_trace_by_default,
            hooks.1.display_env_section == self.display_env_section,
            hooks.1.styles == self.styles,
            hooks.1.issue_url == self.issue_url,
            *hooks.1.issue_metadata == self.issue_metadata,
            hooks.1.issue_filter == self.issue_filter,
    {
        let metadata = Arc::new(self.issue_metadata);
        let panic_hook = PanicHook {
            filters: self.filters,
            section: self.panic_section,
            panic_message: self.panic_message,
            styles: self.styles,
            capture_span_trace_by_default: self.capture_span_trace_by_default,
            display_env_section: self.display_env_section,
            issue_url: clone_text(&self.issue_url),
            issue_metadata: share(&metadata),
            issue_filter: share_opt(&self.issue_filter),
        };
        let eyre_hook = EyreHook {
            capture_span_trace_by_default: self.capture_span_trace_by_default,
            display_env_section: self.display_env_section,
            styles: self.styles,
            issue_url: self.issue_url,
            issue_metadata: metadata,
            issue_filter: self.issue_filter,
        };
        (panic_hook, eyre_hook)
    }
}

impl<F, M, I, D> Default for HookBuilder<F, M, I, D> {
    fn default() -> (b: Self)
        ensures
            b.filters@ == default_filters::<F>(),
            b.capture_span_trace_by_default,
            b.display_env_section,
            b.panic_section is None,
            b.panic_message is None,
            b.styles == dark_styles(),
            b.issue_url is None,
            b.issue_metadata@.len() == 0,
            b.issue_filter is None,
    {
        Self::new()
    }
}

/// The panic hook of the default configuration, used where none was
/// installed.
pub fn default_printer<F, M, I, D>() -> (hook: PanicHook<F, M, I, D>)
    ensures
        hook.filters@ == default_filters::<F>(),
        hook.section is None,
        hook.panic_message is None,
        hook.styles == dark_styles(),
        hook.capture_span_trace_by_default,
        hook.display_env_section,
        hook.issue_url is None,
        hook.issue_metadata@.len() == 0,
        hook.issue_filter is None,
{
    let (panic_hook, _) = HookBuilder::<F, M, I, D>::default().into_hooks();
    panic_hook
}

/// What a panic report captures and which of its sections it prints.
#[derive(Clone, Copy, Debug, PartialEq, Eq, Structural)]
pub struct PanicReportPlan {
    /// Capture and print a backtrace.
    pub capture_backtrace: bool,
    /// Capture and print a span trace.
    pub capture_span_trace: bool,
    /// Print the custom panic section.
    pub show_section: bool,
    /// Print the section on environment variables.
    pub show_env_section: bool,
}

/// What an error report handler is made with.
pub struct HandlerConfig<I, D> {
    /// Capture a backtrace.
    pub capture_backtrace: bool,
    /// Capture a span trace.
    pub capture_span_trace: bool,
    pub display_env_section: bool,
    pub issue_url: Option<String>,
    pub issue_metadata: Arc<Vec<(String, D)>>,
    pub issue_filter: Option<Arc<I>>,
    pub styles: Styles,
}

impl<F, M, I, D> PanicHook<F, M, I, D> {
    /// What a panic report captures and prints, at panic verbosity `v`
    /// and with `rust_spantrace` the value of `RUST_SPANTRACE`.
    pub fn report_plan(&self, v: Verbosity, rust_spantrace: Option<&str>) -> (plan:
        PanicReportPlan)
        ensures
            plan.capture_backtrace == (v != Verbosity::Minimal),
            plan.capture_span_trace == match rust_spantrace {
                Some(s) => s@ != "0"@,
                None => self.capture_span_trace_by_default,
            },
            plan.show_section == self.section is Some,
            plan.show_env_section == self.display_env_section,
    {
        PanicReportPlan {
            capture_backtrace: captures_backtrace(v),
            capture_span_trace: spantrace_capture_enabled(
                rust_spantrace,
                self.capture_span_trace_by_default,
            ),
            show_section: self.section.is_some(),
            show_env_section: self.display_env_section,
        }
    }

    /// Whether the issue filter is to be asked about this panic: only when
    /// an issue url is set and a filter is configured.
    pub fn consults_issue_filter(&self) -> (r: bool)
        ensures
            r == (self.issue_url is Some && self.issue_filter is Some),
    {
        self.issue_url.is_some() && self.issue_filter.is_some()
    }

    /// Whether a panic report prints an issue link, given what the issue
    /// filter answered, if it was asked: only when an issue url is set and
    /// the filter, where there is one, accepts the panic.
    pub fn shows_issue_section(&self, filter_accepts: Option<bool>) -> (r: bool)
        ensures
            r == (self.issue_url is Some && match self.issue_filter {
                Some(_) => filter_accepts == Some(true),
                None => true,
            }),
    {
        if self.issue_url.is_none() {
            return false;
        }
        match self.issue_filter {
            Some(_) => match filter_accepts {
                Some(accepts) => accepts,
                None => false,
            },
            None => true,
        }
    }
}

impl<I, D> EyreHook<I, D> {
    /// What the handler of an error report is made with, at error report
    /// verbosity `v`, with `rust_spantrace` the value of `RUST_SPANTRACE`,
    /// for an error that carries a span trace of its own or not.
    pub fn default(&self, v: Verbosity, rust_spantrace: Option<&str>, error_has_span_trace: bool) -> (h:
        HandlerConfig<I, D>)
        ensures
            h.capture_backtrace == (v != Verbosity::Minimal),
            h.capture_span_trace == (match rust_spantrace {
                Some(s) => s@ != "0"@,
                None => self.capture_span_trace_by_default,
            } && !error_has_span_trace),
            h.display_env_section == self.display_env_section,
            h.issue_url == self.issue_url,
            h.issue_metadata == self.issue_metadata,
            h.issue_filter == self.issue_filter,
            h.styles == self.styles,
    {
        let capture_span_trace = spantrace_capture_enabled(
            rust_spantrace,
            self.capture_span_trace_by_default,
        ) && !error_has_span_trace;
        HandlerConfig {
            capture_backtrace: captures_backtrace(v),
            capture_span_trace,
            display_env_section: self.display_env_section,
            issue_url: clone_text(&self.issue_url),
            issue_metadata: share(&self.issue_metadata),
            issue_filter: share_opt(&self.issue_filter),
            styles: self.styles,
        }
    }
}

} // verus!
