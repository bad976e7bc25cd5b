//! The order in which installing the hooks sets the global state, and the
//! errors that stop it.
use vstd::prelude::*;

verus! {

/// A step of installing the hooks. The steps run in the order in which the
/// variants are declared.
#[derive(Clone, Copy, Debug, PartialEq, Eq, Structural)]
pub enum InstallStep {
    /// Store the styles globally.
    SetStyles,
    /// Hand the span trace styles to the span trace printer.
    SetSpanTraceStyles,
    /// Install the error report hook.
    SetErrorHook,
    /// Install the panic hook.
    SetPanicHook,
    /// Store the panic hook's configuration globally.
    StoreConfig,
}

/// Why installing the hooks failed.
#[derive(Clone, Copy, Debug, PartialEq, Eq, Structural)]
pub enum InstallError {
    /// Styles were already stored.
    StylesAlreadySet,
    /// The span trace printer already had styles.
    SpanTraceStylesAlreadySet,
    /// A panic hook configuration was already stored.
    ConfigAlreadySet,
}

/// What comes after a step of installing the hooks.
#[derive(Clone, Copy, Debug, PartialEq, Eq, Structural)]
pub enum InstallOutcome {
    /// Run this step next.
    Next(InstallStep),
    /// Installing stopped with this error.
    Failed(InstallError),
    /// Installing stopped because the error report hook was refused; the
    /// error is the one that refused it.
    ErrorHookRefused,
    /// Every step succeeded.
    Done,
}

/// How installing ends when `step` fails.
pub open spec fn failure_of(step: InstallStep) -> InstallOutcome {
    match step {
        InstallStep::SetStyles => InstallOutcome::Failed(InstallError::StylesAlreadySet),
        InstallStep::SetSpanTraceStyles => InstallOutcome::Failed(
            InstallError::SpanTraceStylesAlreadySet,
        ),
        InstallStep::SetErrorHook => InstallOutcome::ErrorHookRefused,
        _ => InstallOutcome::Failed(InstallError::ConfigAlreadySet),
    }
}

/// The step after `step`, if any.
pub open spec fn successor(step: InstallStep) -> Option<InstallStep> {
    match step {
        InstallStep::SetStyles => Some(InstallStep::SetSpanTraceStyles),
        InstallStep::SetSpanTraceStyles => Some(InstallStep::SetErrorHook),
        InstallStep::SetErrorHook => Some(InstallStep::SetPanicHook),
        InstallStep::SetPanicHook => Some(InstallStep::StoreConfig),
        InstallStep::StoreConfig => None,
    }
}

/// The first step of installing the hooks.
pub fn first_install_step() -> (step: InstallStep)
    ensures
        step == InstallStep::SetStyles,
{
    InstallStep::SetStyles
}

/// What comes after `step`, which succeeded or failed: a failed step stops
/// the installation with its error (for the error report hook, the error of
/// whatever refused it); otherwise the next step runs, and after
/// the last one the installation is done. Installing the panic hook cannot
/// fail.
pub fn after_install_step(step: InstallStep, succeeded: bool) -> (outcome: InstallOutcome)
    ensures
        outcome == if !succeeded && step != InstallStep::SetPanicHook {
            failure_of(step)
        } else {
            match successor(step) {
                Some(next) => InstallOutcome::Next(next),
                None => InstallOutcome::Done,
            }
        },
{
    match step {
        InstallStep::SetStyles => if succeeded {
            InstallOutcome::Next(InstallStep::SetSpanTraceStyles)
        } else {
            InstallOutcome::Failed(InstallError::StylesAlreadySet)
        },
        InstallStep::SetSpanTraceStyles => if succeeded {
            InstallOutcome::Next(InstallStep::SetErrorHook)
        } else {
            InstallOutcome::Failed(InstallError::SpanTraceStylesAlreadySet)
        },
        InstallStep::SetErrorHook => if succeeded {
            InstallOutcome::Next(InstallStep::SetPanicHook)
        } else {
            InstallOutcome::ErrorHookRefused
        },
        InstallStep::SetPanicHook => InstallOutcome::Next(InstallStep::StoreConfig),
        InstallStep::StoreConfig => if succeeded {
            InstallOutcome::Done
        } else {
            InstallOutcome::Failed(InstallError::ConfigAlreadySet)
        },
    }
}

impl InstallError {
    /// The text that describes the error.
    pub fn message(&self) -> (m: &'static str)
        ensures
            m@ == match self {
                InstallError::StylesAlreadySet =>
                    "could not set the provided `Styles` globally as another was already set"@,
                InstallError::SpanTraceStylesAlreadySet =>
                    "could not set the provided `Styles` via `color_backtrace::set_styles` globally as another was already set"@,
                InstallError::ConfigAlreadySet =>
                    "could not install the BacktracePrinter as another was already installed"@,
            },
    {
        match self {
            InstallError::StylesAlreadySet =>
                "could not set the provided `Styles` globally as another was already set",
            InstallError::SpanTraceStylesAlreadySet =>
                "could not set the provided `Styles` via `color_backtrace::set_styles` globally as another was already set",
            InstallError::ConfigAlreadySet =>
                "could not install the BacktracePrinter as another was already installed",
        }
    }
}

} // verus!
