use vstd::prelude::*;
use crate::text;

verus! {

/// Severity of a log message.
///
/// The variants are listed from most severe to most verbose: `Error` is the
/// most severe level, `Trace` the most verbose. The same scale orders the
/// address ranges that the classifier assigns and the minimum-severity
/// filter that the decoder applies.
#[derive(Clone, Copy, Debug, PartialEq, Eq, Structural)]
pub enum Severity {
    Error,
    Warning,
    Info,
    Debug,
    Trace,
}

impl Severity {
    /// Position of the level on the verbosity scale: 0 for `Error` up to 4
    /// for `Trace`.
    pub open spec fn verbosity(self) -> int {
        match self {
            Severity::Error => 0,
            Severity::Warning => 1,
            Severity::Info => 2,
            Severity::Debug => 3,
            Severity::Trace => 4,
        }
    }

    /// Runtime counterpart of [`Severity::verbosity`].
    pub fn verbosity_index(&self) -> (n: u8)
        ensures
            n as int == self.verbosity(),
    {
        match self {
            Severity::Error => 0,
            Severity::Warning => 1,
            Severity::Info => 2,
            Severity::Debug => 3,
            Severity::Trace => 4,
        }
    }

    /// Whether a message of severity `self` passes a minimum-severity filter
    /// set to `filter`.
    ///
    /// A message passes when it is no more verbose than the filter level:
    /// `Error` passes every filter, and `Trace` passes only when the filter
    /// is `Trace` itself.
    pub fn passes_filter(&self, filter: Severity) -> (r: bool)
        ensures
            r == (self.verbosity() <= filter.verbosity()),
    {
        self.verbosity_index() <= filter.verbosity_index()
    }

    /// The level a filter name denotes: the recognized names are `error`,
    /// `warning`, `info`, `debug` and `trace`, compared without regard to
    /// ASCII case; anything else denotes no level.
    pub open spec fn spec_from_name(s: Seq<char>) -> Option<Severity> {
        if text::eq_ignore_ascii_case(s, "error"@) {
            Some(Severity::Error)
        } else if text::eq_ignore_ascii_case(s, "warning"@) {
            Some(Severity::Warning)
        } else if text::eq_ignore_ascii_case(s, "info"@) {
            Some(Severity::Info)
        } else if text::eq_ignore_ascii_case(s, "debug"@) {
            Some(Severity::Debug)
        } else if text::eq_ignore_ascii_case(s, "trace"@) {
            Some(Severity::Trace)
        } else {
            None
        }
    }

    /// Runtime counterpart of [`Severity::spec_from_name`].
    pub fn from_name(s: &str) -> (r: Option<Severity>)
        ensures
            r == Severity::spec_from_name(s@),
    {
        if text::str_eq_ignore_ascii_case(s, "error") {
            Some(Severity::Error)
        } else if text::str_eq_ignore_ascii_case(s, "warning") {
            Some(Severity::Warning)
        } else if text::str_eq_ignore_ascii_case(s, "info") {
            Some(Severity::Info)
        } else if text::str_eq_ignore_ascii_case(s, "debug") {
            Some(Severity::Debug)
        } else if text::str_eq_ignore_ascii_case(s, "trace") {
            Some(Severity::Trace)
        } else {
            None
        }
    }

    /// Upper-case display name of the level.
    pub open spec fn spec_label(self) -> Seq<char> {
        match self {
            Severity::Error => "ERROR"@,
            Severity::Warning => "WARNING"@,
            Severity::Info => "INFO"@,
            Severity::Debug => "DEBUG"@,
            Severity::Trace => "TRACE"@,
        }
    }

    /// Runtime counterpart of [`Severity::spec_label`].
    pub fn label(&self) -> (r: &'static str)
        ensures
            r@ == self.spec_label(),
    {
        match self {
            Severity::Error => "ERROR",
            Severity::Warning => "WARNING",
            Severity::Info => "INFO",
            Severity::Debug => "DEBUG",
            Severity::Trace => "TRACE",
        }
    }
}

} // verus!
