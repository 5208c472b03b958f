use vstd::prelude::*;

verus! {

/// How urgent a message is, from most to least severe.
#[derive(Clone, Copy, Debug, PartialEq, Eq, Structural)]
pub enum Severity {
    Error,
    Warn,
    Info,
    Debug,
    Trace,
}

/// The icon that an operator-facing alert shows.
#[derive(Clone, Copy, Debug, PartialEq, Eq, Structural)]
pub enum AlertIcon {
    Error,
    Warning,
    Info,
    Plain,
}

/// Icon for each severity: errors and warnings get their own icon, `Info`
/// the information icon, and the two diagnostic levels none.
pub open spec fn spec_icon(s: Severity) -> AlertIcon {
    match s {
        Severity::Error => AlertIcon::Error,
        Severity::Warn => AlertIcon::Warning,
        Severity::Info => AlertIcon::Info,
        Severity::Debug => AlertIcon::Plain,
        Severity::Trace => AlertIcon::Plain,
    }
}

impl Severity {
    pub fn icon(self) -> (r: AlertIcon)
        ensures
            r == spec_icon(self),
    {
        match self {
            Severity::Error => AlertIcon::Error,
            Severity::Warn => AlertIcon::Warning,
            Severity::Info => AlertIcon::Info,
            Severity::Debug => AlertIcon::Plain,
            Severity::Trace => AlertIcon::Plain,
        }
    }
}

/// What a message reports.
#[derive(Debug)]
pub enum Notice {
    /// A denylisted process was terminated.
    Killed { name: String },
    /// The kill request ran and reported a non-zero exit status, or none.
    KillExitCode { name: String, code: Option<i32> },
    /// The kill request could not be started.
    KillNotLaunched { name: String, detail: String },
    /// The denylist file at `path` is empty.
    EmptyDenylist { path: String },
    /// Reading the denylist failed; the watchdog restarts.
    Fatal { detail: String },
}

/// A message for the operator, with its delivery settings: `threaded`
/// delivers it without blocking the watchdog, `delay_ms` waits before
/// showing it.
#[derive(Debug)]
pub struct Notification {
    pub notice: Notice,
    pub severity: Severity,
    pub threaded: bool,
    pub delay_ms: u64,
}

} // verus!
