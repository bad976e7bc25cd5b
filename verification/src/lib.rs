//! Configuration of the panic and error report hooks: styles, frame
//! classification, frame filters and the layout of reports.
pub mod text;
pub mod style;
pub mod frame;
pub mod filter;
pub mod backtrace;
pub mod render;
pub mod verbosity;
pub mod hook;
pub mod install;
pub mod report;

pub use backtrace::{arrange_backtrace, backtrace_layout, BacktraceLine};
pub use filter::{default_frame_filter, eyre_frame_filters, FrameFilter};
pub use frame::{number_frames, Frame, FrameSymbol};
pub use hook::{EyreHook, HandlerConfig, HookBuilder, PanicHook, PanicReportPlan};
pub use install::{InstallError, InstallOutcome, InstallStep};
pub use render::StyledText;
pub use style::{style, AnsiColor, DynColor, Effects, SpanTraceStyles, Style, Styles};
pub use verbosity::Verbosity;
