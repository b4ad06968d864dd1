//! Settings of the log and the errors of setting it up.

use crate::scan::{contains, has};
use crate::text::{
    ascii_lowered, chars_of, join, join3, to_ascii_lower, trim_chars, trimmed,
};
use vstd::prelude::*;
use vstd::string::StringExecFns;

verus! {

/// How log lines are written.
#[derive(Clone, Copy, Debug, PartialEq, Eq, Structural)]
pub enum LoggerFormat {
    /// Plain text.
    Text,
    /// One JSON object per line.
    Json,
    /// To the journal of the system.
    Journald,
}

/// Why the log could not be set up.
#[derive(Debug)]
pub enum LoggerError {
    /// The format has no such name.
    InvalidFormat(String),
    /// The journal cannot be written to on this platform.
    JournaldNotSupported,
    /// The log was set up before.
    AlreadyInitialized,
    /// Setting the log up failed.
    InitializationFailed(String),
    /// The level is not one the filter understands.
    InvalidLogLevel(String),
}

/// What a [`LoggerError`] holds, as plain values.
pub enum LoggerErrorView {
    InvalidFormat(Seq<char>),
    JournaldNotSupported,
    AlreadyInitialized,
    InitializationFailed(Seq<char>),
    InvalidLogLevel(Seq<char>),
}

impl View for LoggerError {
    type V = LoggerErrorView;

    open spec fn view(&self) -> LoggerErrorView {
        match self {
            LoggerError::InvalidFormat(m) => LoggerErrorView::InvalidFormat(m@),
            LoggerError::JournaldNotSupported => LoggerErrorView::JournaldNotSupported,
            LoggerError::AlreadyInitialized => LoggerErrorView::AlreadyInitialized,
            LoggerError::InitializationFailed(m) => LoggerErrorView::InitializationFailed(m@),
            LoggerError::InvalidLogLevel(m) => LoggerErrorView::InvalidLogLevel(m@),
        }
    }
}

impl LoggerErrorView {
    /// The error in words.
    pub open spec fn message(self) -> Seq<char> {
        match self {
            LoggerErrorView::InvalidFormat(m) => "Invalid logger format: "@ + m
                + " (expected: text|json|journald)"@,
            LoggerErrorView::JournaldNotSupported => {
                "Journald is not supported on this platform or feature disabled"@
            },
            LoggerErrorView::AlreadyInitialized => "Logger has been already initialized"@,
            LoggerErrorView::InitializationFailed(m) => "Failed to initialize logger: "@ + m,
            LoggerErrorView::InvalidLogLevel(m) => "Invalid log level: "@ + m,
        }
    }
}

impl LoggerError {
    /// The error in words.
    pub fn message(&self) -> (r: String)
        ensures
            r@ == self@.message(),
    {
        match self {
            LoggerError::InvalidFormat(m) => join3(
                "Invalid logger format: ",
                m.as_str(),
                " (expected: text|json|journald)",
            ),
            LoggerError::JournaldNotSupported => String::from_str(
                "Journald is not supported on this platform or feature disabled",
            ),
            LoggerError::AlreadyInitialized => String::from_str(
                "Logger has been already initialized",
            ),
            LoggerError::InitializationFailed(m) => join(
                "Failed to initialize logger: ",
                m.as_str(),
            ),
            LoggerError::InvalidLogLevel(m) => join("Invalid log level: ", m.as_str()),
        }
    }

    /// The error for a level that the filter does not understand.
    pub fn invalid_level(level: &str) -> (r: Self)
        ensures
            r@ == LoggerErrorView::InvalidLogLevel(level@),
    {
        LoggerError::InvalidLogLevel(String::from_str(level))
    }

    /// The error for a journal that could not be opened, for the reason
    /// `why`.
    pub fn journal_failed(why: &str) -> (r: Self)
        ensures
            r@ == LoggerErrorView::InitializationFailed("journald: "@ + why@),
    {
        LoggerError::InitializationFailed(join("journald: ", why))
    }
}

/// What tells, in the words of a failed set-up, that the log was set up
/// before.
pub open spec fn already_set() -> Seq<char> {
    "SetGlobalDefaultError"@
}

/// The error that the words `why` of a failed set-up stand for.
pub fn as_error(why: &str) -> (r: LoggerError)
    ensures
        r@ == if contains(why@, already_set()) {
            LoggerErrorView::AlreadyInitialized
        } else {
            LoggerErrorView::InitializationFailed(why@)
        },
{
    if has(why, "SetGlobalDefaultError") {
        LoggerError::AlreadyInitialized
    } else {
        LoggerError::InitializationFailed(String::from_str(why))
    }
}

/// The name of a format as it is compared: trimmed, in lowercase.
pub open spec fn normal(name: Seq<char>) -> Seq<char> {
    ascii_lowered(trimmed(name))
}

/// The format that a name stands for, whatever its case and the blanks
/// around it. The journal has two names, and is a format only where it
/// can be written to.
pub open spec fn format_named(name: Seq<char>, journald: bool) -> Result<
    LoggerFormat,
    LoggerErrorView,
> {
    let norm = normal(name);
    if norm == "text"@ {
        Ok(LoggerFormat::Text)
    } else if norm == "json"@ {
        Ok(LoggerFormat::Json)
    } else if norm == "journald"@ || norm == "journal"@ {
        if journald {
            Ok(LoggerFormat::Journald)
        } else {
            Err(LoggerErrorView::JournaldNotSupported)
        }
    } else {
        Err(LoggerErrorView::InvalidFormat(name))
    }
}

impl LoggerFormat {
    /// The format named `s`; `journald` says whether the journal can be
    /// written to on this platform.
    pub fn parse(s: &str, journald: bool) -> (r: Result<LoggerFormat, LoggerError>)
        ensures
            match r {
                Ok(f) => format_named(s@, journald) == Ok::<LoggerFormat, LoggerErrorView>(f),
                Err(e) => format_named(s@, journald) == Err::<LoggerFormat, LoggerErrorView>(e@),
            },
    {
        let v = chars_of(s);
        let t = trim_chars(&v);
        let norm = to_ascii_lower(&t);
        let text = chars_of("text");
        let json = chars_of("json");
        let journald_name = chars_of("journald");
        let journal = chars_of("journal");
        if same(&norm, &text) {
            Ok(LoggerFormat::Text)
        } else if same(&norm, &json) {
            Ok(LoggerFormat::Json)
        } else if same(&norm, &journald_name) || same(&norm, &journal) {
            if journald {
                Ok(LoggerFormat::Journald)
            } else {
                Err(LoggerError::JournaldNotSupported)
            }
        } else {
            Err(LoggerError::InvalidFormat(String::from_str(s)))
        }
    }
}

/// Whether two lists of characters are the same.
fn same(a: &Vec<char>, b: &Vec<char>) -> (r: bool)
    ensures
        r == (a@ == b@),
{
    if a.len() != b.len() {
        return false;
    }
    let mut i: usize = 0;
    while i < a.len()
        invariant
            a@.len() == b@.len(),
            i <= a@.len(),
            forall|j: int| 0 <= j < i ==> a@[j] == b@[j],
        decreases a@.len() - i,
    {
        if a[i] != b[i] {
            return false;
        }
        i = i + 1;
    }
    assert(a@ =~= b@);
    true
}

/// Settings of the log.
#[derive(Debug)]
pub struct LoggerConfig {
    /// How log lines are written.
    pub format: LoggerFormat,
    /// The filter: a level, or directives for targets.
    pub level: String,
    /// Whether a line names the target it comes from.
    pub with_targets: bool,
    /// Whether a line is coloured.
    pub use_color: bool,
}

/// Whether the standard output is a terminal, as `atty::is` reports it
/// for `Stream::Stdout`. Nothing is claimed of the result.
#[verifier::external_body]
fn stdout_is_terminal() -> bool {
    atty::is(atty::Stream::Stdout)
}

impl LoggerConfig {
    /// Text at level `info`, with targets, coloured or not.
    pub fn with_color(use_color: bool) -> (r: Self)
        ensures
            r.format == LoggerFormat::Text,
            r.level@ == "info"@,
            r.with_targets,
            r.use_color == use_color,
    {
        LoggerConfig {
            format: LoggerFormat::Text,
            level: String::from_str("info"),
            with_targets: true,
            use_color,
        }
    }
}

impl Default for LoggerConfig {
    fn default() -> (r: Self)
        ensures
            r.format == LoggerFormat::Text,
            r.level@ == "info"@,
            r.with_targets,
    {
        LoggerConfig::with_color(stdout_is_terminal())
    }
}

/// The subscriber that writes every event to the log.
#[derive(Clone, Copy, Debug, PartialEq, Eq, Structural)]
pub struct Journal;

impl Journal {
    /// The subscriber.
    pub fn new() -> (r: Self)
        ensures
            r == Journal,
    {
        Journal
    }

    /// Name under which the subscriber is registered.
    pub fn name(&self) -> (r: &'static str)
        ensures
            r@ == "journal"@,
    {
        "journal"
    }

    /// Number of events that may wait for the subscriber.
    pub fn queue_capacity(&self) -> (r: usize)
        ensures
            r == 2048,
    {
        2048
    }

    /// The log line of the event `event`.
    pub fn on_event(&self, event: &crate::event::Event) -> (r: crate::event::LogRecord)
        ensures
            r@ == crate::event::record_of(event@),
    {
        crate::event::log_event(event)
    }
}

} // verus!
