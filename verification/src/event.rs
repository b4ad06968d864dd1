//! Lifecycle events and how they are written to the log.

use crate::text::opt_view;
use vstd::prelude::*;
use vstd::string::StringExecFns;

verus! {

/// The lifecycle transitions that the supervisor reports.
#[derive(Clone, Copy, Debug, PartialEq, Eq, Structural)]
pub enum EventKind {
    /// A task was asked to be added.
    TaskAddRequested,
    /// A task was added: its actor runs and is registered.
    TaskAdded,
    /// A task was asked to be removed.
    TaskRemoveRequested,
    /// A task was removed, after its actor was joined.
    TaskRemoved,
    /// Shutdown was requested.
    ShutdownRequested,
    /// Every task stopped within the grace period.
    AllStoppedWithinGrace,
    /// Some tasks did not stop within the grace period.
    GraceExceeded,
    /// An event was dropped for a subscriber whose queue was full.
    SubscriberOverflow,
    /// A subscriber panicked while it handled an event.
    SubscriberPanicked,
    /// The restart policy of an actor is exhausted.
    ActorExhausted,
    /// An actor ended for good after a fatal error.
    ActorDead,
    /// An attempt is starting.
    TaskStarting,
    /// An attempt stopped: it succeeded or was canceled.
    TaskStopped,
    /// An attempt failed.
    TaskFailed,
    /// An attempt ran into its timeout.
    TimeoutHit,
    /// The next attempt was scheduled.
    BackoffScheduled,
    /// The controller refused a submission.
    ControllerRejected,
    /// The controller started a submission.
    ControllerSubmitted,
    /// A slot of the controller changed state.
    ControllerSlotTransition,
}

/// One lifecycle event.
#[derive(Debug)]
pub struct Event {
    /// What happened.
    pub kind: EventKind,
    /// Name of the task concerned.
    pub task: Option<String>,
    /// Why it happened.
    pub reason: Option<String>,
    /// Number of the attempt concerned.
    pub attempt: Option<u32>,
    /// Delay before the next attempt, in milliseconds.
    pub delay_ms: Option<u32>,
    /// Time limit that was hit, in milliseconds.
    pub timeout_ms: Option<u32>,
}

/// What an [`Event`] holds, as plain values.
pub struct EventView {
    pub kind: EventKind,
    pub task: Option<Seq<char>>,
    pub reason: Option<Seq<char>>,
    pub attempt: Option<u32>,
    pub delay_ms: Option<u32>,
    pub timeout_ms: Option<u32>,
}

impl View for Event {
    type V = EventView;

    open spec fn view(&self) -> EventView {
        EventView {
            kind: self.kind,
            task: opt_view(self.task),
            reason: opt_view(self.reason),
            attempt: self.attempt,
            delay_ms: self.delay_ms,
            timeout_ms: self.timeout_ms,
        }
    }
}

/// What stands in the log for a text that an event does not carry.
pub open spec fn unknown() -> Seq<char> {
    "unknown"@
}

impl EventView {
    /// The task name, or `unknown`.
    pub open spec fn task_or_unknown(self) -> Seq<char> {
        match self.task {
            Some(t) => t,
            None => unknown(),
        }
    }

    /// The reason, or `unknown`.
    pub open spec fn reason_or_unknown(self) -> Seq<char> {
        match self.reason {
            Some(r) => r,
            None => unknown(),
        }
    }

    /// The attempt number, or zero.
    pub open spec fn attempt_or_zero(self) -> u32 {
        match self.attempt {
            Some(n) => n,
            None => 0,
        }
    }

    /// The delay, or zero.
    pub open spec fn delay_or_zero(self) -> u32 {
        match self.delay_ms {
            Some(n) => n,
            None => 0,
        }
    }

    /// The timeout, or zero.
    pub open spec fn timeout_or_zero(self) -> u32 {
        match self.timeout_ms {
            Some(n) => n,
            None => 0,
        }
    }
}

impl Event {
    /// An event of `kind` that carries nothing else.
    pub fn new(kind: EventKind) -> (r: Self)
        ensures
            r@ == (EventView {
                kind,
                task: None,
                reason: None,
                attempt: None,
                delay_ms: None,
                timeout_ms: None,
            }),
    {
        Event { kind, task: None, reason: None, attempt: None, delay_ms: None, timeout_ms: None }
    }

    /// The same event, about the task `task`.
    pub fn with_task(self, task: &str) -> (r: Self)
        ensures
            r@ == (EventView { task: Some(task@), ..self@ }),
    {
        Event {
            kind: self.kind,
            task: Some(String::from_str(task)),
            reason: self.reason,
            attempt: self.attempt,
            delay_ms: self.delay_ms,
            timeout_ms: self.timeout_ms,
        }
    }

    /// The same event, with the reason `reason`.
    pub fn with_reason(self, reason: &str) -> (r: Self)
        ensures
            r@ == (EventView { reason: Some(reason@), ..self@ }),
    {
        Event {
            kind: self.kind,
            task: self.task,
            reason: Some(String::from_str(reason)),
            attempt: self.attempt,
            delay_ms: self.delay_ms,
            timeout_ms: self.timeout_ms,
        }
    }

    /// The same event, about attempt number `attempt`.
    pub fn with_attempt(self, attempt: u32) -> (r: Self)
        ensures
            r@ == (EventView { attempt: Some(attempt), ..self@ }),
    {
        Event {
            kind: self.kind,
            task: self.task,
            reason: self.reason,
            attempt: Some(attempt),
            delay_ms: self.delay_ms,
            timeout_ms: self.timeout_ms,
        }
    }

    /// The same event, with the delay `delay_ms`.
    pub fn with_delay(self, delay_ms: u32) -> (r: Self)
        ensures
            r@ == (EventView { delay_ms: Some(delay_ms), ..self@ }),
    {
        Event {
            kind: self.kind,
            task: self.task,
            reason: self.reason,
            attempt: self.attempt,
            delay_ms: Some(delay_ms),
            timeout_ms: self.timeout_ms,
        }
    }

    /// The same event, with the timeout `timeout_ms`.
    pub fn with_timeout(self, timeout_ms: u32) -> (r: Self)
        ensures
            r@ == (EventView { timeout_ms: Some(timeout_ms), ..self@ }),
    {
        Event {
            kind: self.kind,
            task: self.task,
            reason: self.reason,
            attempt: self.attempt,
            delay_ms: self.delay_ms,
            timeout_ms: Some(timeout_ms),
        }
    }

    /// The task name, or `unknown` where the event carries none.
    pub fn as_task(&self) -> (r: &str)
        ensures
            r@ == self@.task_or_unknown(),
    {
        match &self.task {
            Some(t) => t.as_str(),
            None => "unknown",
        }
    }

    /// The reason, or `unknown` where the event carries none.
    pub fn as_reason(&self) -> (r: &str)
        ensures
            r@ == self@.reason_or_unknown(),
    {
        match &self.reason {
            Some(t) => t.as_str(),
            None => "unknown",
        }
    }

    /// The attempt number, or zero where the event carries none.
    pub fn attempt(&self) -> (r: u32)
        ensures
            r == self@.attempt_or_zero(),
    {
        match self.attempt {
            Some(n) => n,
            None => 0,
        }
    }

    /// The delay, or zero where the event carries none.
    pub fn delay_ms(&self) -> (r: u32)
        ensures
            r == self@.delay_or_zero(),
    {
        match self.delay_ms {
            Some(n) => n,
            None => 0,
        }
    }

    /// The timeout, or zero where the event carries none.
    pub fn timeout_ms(&self) -> (r: u32)
        ensures
            r == self@.timeout_or_zero(),
    {
        match self.timeout_ms {
            Some(n) => n,
            None => 0,
        }
    }

    /// What happened.
    pub fn kind(&self) -> (r: EventKind)
        ensures
            r == self@.kind,
    {
        self.kind
    }

    /// Whether the event carries a reason.
    pub fn has_reason(&self) -> (r: bool)
        ensures
            r == self@.reason is Some,
    {
        self.reason.is_some()
    }
}

/// How loud a log line is.
#[derive(Clone, Copy, Debug, PartialEq, Eq, Structural)]
pub enum LogLevel {
    Trace,
    Debug,
    Info,
    Warn,
    Error,
}

/// The fixed description of each kind of event.
pub open spec fn message_of(kind: EventKind) -> Seq<char> {
    match kind {
        EventKind::TaskAdded => "task added (actor spawned and registered)"@,
        EventKind::TaskRemoved => "task removed (after join/cleanup)"@,
        EventKind::TaskRemoveRequested => "request to remove a task"@,
        EventKind::TaskAddRequested => "request to add a new task"@,
        EventKind::GraceExceeded => "grace exceeded; some tasks did not stop in time"@,
        EventKind::AllStoppedWithinGrace => "all tasks stopped within grace period"@,
        EventKind::ShutdownRequested => "shutdown requested (OS signal)"@,
        EventKind::SubscriberOverflow => {
            "event dropped for a subscriber (queue full or worker closed)"@
        },
        EventKind::SubscriberPanicked => "subscriber panicked while processing an event"@,
        EventKind::ActorExhausted => "actor exhausted restart policy (no further restarts)"@,
        EventKind::ActorDead => "actor terminated permanently (fatal)"@,
        EventKind::TaskStopped => "task stopped (success or graceful cancel)"@,
        EventKind::TaskFailed => "task failed (non-fatal for this attempt)"@,
        EventKind::TimeoutHit => "task exceeded its configured timeout"@,
        EventKind::BackoffScheduled => "next attempt scheduled"@,
        EventKind::TaskStarting => "task is starting"@,
        EventKind::ControllerRejected => "queue rejected"@,
        EventKind::ControllerSubmitted => "task submitted by controller"@,
        EventKind::ControllerSlotTransition => "controller slot transition"@,
    }
}

/// The fixed description of an event of `kind`.
pub fn message_for(kind: EventKind) -> (r: &'static str)
    ensures
        r@ == message_of(kind),
{
    match kind {
        EventKind::TaskAdded => "task added (actor spawned and registered)",
        EventKind::TaskRemoved => "task removed (after join/cleanup)",
        EventKind::TaskRemoveRequested => "request to remove a task",
        EventKind::TaskAddRequested => "request to add a new task",
        EventKind::GraceExceeded => "grace exceeded; some tasks did not stop in time",
        EventKind::AllStoppedWithinGrace => "all tasks stopped within grace period",
        EventKind::ShutdownRequested => "shutdown requested (OS signal)",
        EventKind::SubscriberOverflow => {
            "event dropped for a subscriber (queue full or worker closed)"
        },
        EventKind::SubscriberPanicked => "subscriber panicked while processing an event",
        EventKind::ActorExhausted => "actor exhausted restart policy (no further restarts)",
        EventKind::ActorDead => "actor terminated permanently (fatal)",
        EventKind::TaskStopped => "task stopped (success or graceful cancel)",
        EventKind::TaskFailed => "task failed (non-fatal for this attempt)",
        EventKind::TimeoutHit => "task exceeded its configured timeout",
        EventKind::BackoffScheduled => "next attempt scheduled",
        EventKind::TaskStarting => "task is starting",
        EventKind::ControllerRejected => "queue rejected",
        EventKind::ControllerSubmitted => "task submitted by controller",
        EventKind::ControllerSlotTransition => "controller slot transition",
    }
}

/// The level at which an event of `kind` is logged.
pub open spec fn level_of(kind: EventKind) -> LogLevel {
    match kind {
        EventKind::TaskRemoveRequested
        | EventKind::TaskAddRequested
        | EventKind::TaskRemoved
        | EventKind::TaskStopped
        | EventKind::ControllerSubmitted => LogLevel::Trace,
        EventKind::TaskAdded
        | EventKind::ActorExhausted
        | EventKind::BackoffScheduled
        | EventKind::ControllerSlotTransition => LogLevel::Debug,
        EventKind::ShutdownRequested
        | EventKind::AllStoppedWithinGrace
        | EventKind::TaskStarting => LogLevel::Info,
        EventKind::GraceExceeded | EventKind::TimeoutHit | EventKind::ControllerRejected => {
            LogLevel::Warn
        },
        EventKind::SubscriberPanicked
        | EventKind::SubscriberOverflow
        | EventKind::ActorDead
        | EventKind::TaskFailed => LogLevel::Error,
    }
}

/// Events about the supervisor as a whole name no task.
pub open spec fn names_task(kind: EventKind) -> bool {
    !(kind == EventKind::ShutdownRequested || kind == EventKind::AllStoppedWithinGrace || kind
        == EventKind::GraceExceeded)
}

/// The kinds of event whose log line always gives a reason.
pub open spec fn gives_reason(kind: EventKind) -> bool {
    kind == EventKind::SubscriberPanicked || kind == EventKind::SubscriberOverflow || kind
        == EventKind::ActorExhausted || kind == EventKind::ActorDead || kind
        == EventKind::TaskFailed || kind == EventKind::ControllerRejected || kind
        == EventKind::ControllerSubmitted || kind == EventKind::ControllerSlotTransition
}

/// The kinds of event whose log line gives the attempt number.
pub open spec fn gives_attempt(kind: EventKind) -> bool {
    kind == EventKind::TaskStarting || kind == EventKind::BackoffScheduled || kind
        == EventKind::TaskFailed
}

/// One line of the log, before it is written.
#[derive(Debug)]
pub struct LogRecord {
    /// Level of the line.
    pub level: LogLevel,
    /// Text of the line.
    pub message: &'static str,
    /// The `task` field.
    pub task: Option<String>,
    /// The `reason` field.
    pub reason: Option<String>,
    /// The `attempt` field.
    pub attempt: Option<u32>,
    /// The `delay_ms` field.
    pub delay_ms: Option<u32>,
    /// The `timeout_ms` field.
    pub timeout_ms: Option<u32>,
}

/// What a [`LogRecord`] holds, as plain values.
pub struct LogRecordView {
    pub level: LogLevel,
    pub message: Seq<char>,
    pub task: Option<Seq<char>>,
    pub reason: Option<Seq<char>>,
    pub attempt: Option<u32>,
    pub delay_ms: Option<u32>,
    pub timeout_ms: Option<u32>,
}

impl View for LogRecord {
    type V = LogRecordView;

    open spec fn view(&self) -> LogRecordView {
        LogRecordView {
            level: self.level,
            message: self.message@,
            task: opt_view(self.task),
            reason: opt_view(self.reason),
            attempt: self.attempt,
            delay_ms: self.delay_ms,
            timeout_ms: self.timeout_ms,
        }
    }
}

/// The log line of an event. Every line has the level and the description
/// of its kind, and the fields that the kind calls for, with `unknown` or
/// zero where the event does not carry one. A scheduled attempt is
/// described by what it follows: a failure where the event gives a reason,
/// a success where it gives none.
pub open spec fn record_of(e: EventView) -> LogRecordView {
    LogRecordView {
        level: level_of(e.kind),
        message: if e.kind == EventKind::BackoffScheduled {
            if e.reason is Some {
                "retry scheduled after failure"@
            } else {
                "next run scheduled after success"@
            }
        } else {
            message_of(e.kind)
        },
        task: if names_task(e.kind) {
            Some(e.task_or_unknown())
        } else {
            None
        },
        reason: if gives_reason(e.kind) || (e.kind == EventKind::BackoffScheduled && e.reason
            is Some) {
            Some(e.reason_or_unknown())
        } else {
            None
        },
        attempt: if gives_attempt(e.kind) {
            Some(e.attempt_or_zero())
        } else {
            None
        },
        delay_ms: if e.kind == EventKind::BackoffScheduled {
            Some(e.delay_or_zero())
        } else {
            None
        },
        timeout_ms: if e.kind == EventKind::TimeoutHit {
            Some(e.timeout_or_zero())
        } else {
            None
        },
    }
}

/// A record at `level` with the text `message` and no field.
fn bare(level: LogLevel, message: &'static str) -> (r: LogRecord)
    ensures
        r@ == (LogRecordView {
            level,
            message: message@,
            task: None,
            reason: None,
            attempt: None,
            delay_ms: None,
            timeout_ms: None,
        }),
{
    LogRecord {
        level,
        message,
        task: None,
        reason: None,
        attempt: None,
        delay_ms: None,
        timeout_ms: None,
    }
}

/// The log line of the event `e`.
pub fn log_event(e: &Event) -> (r: LogRecord)
    ensures
        r@ == record_of(e@),
{
    let msg = message_for(e.kind());
    let task = Some(String::from_str(e.as_task()));
    let reason = Some(String::from_str(e.as_reason()));
    let mut r = match e.kind() {
        EventKind::TaskRemoveRequested => bare(LogLevel::Trace, msg),
        EventKind::TaskAddRequested => bare(LogLevel::Trace, msg),
        EventKind::TaskRemoved => bare(LogLevel::Trace, msg),
        EventKind::TaskAdded => bare(LogLevel::Debug, msg),
        EventKind::ShutdownRequested => {
            return bare(LogLevel::Info, msg);
        },
        EventKind::AllStoppedWithinGrace => {
            return bare(LogLevel::Info, msg);
        },
        EventKind::GraceExceeded => {
            return bare(LogLevel::Warn, msg);
        },
        EventKind::SubscriberPanicked => LogRecord { reason, ..bare(LogLevel::Error, msg) },
        EventKind::SubscriberOverflow => LogRecord { reason, ..bare(LogLevel::Error, msg) },
        EventKind::ActorExhausted => LogRecord { reason, ..bare(LogLevel::Debug, msg) },
        EventKind::ActorDead => LogRecord { reason, ..bare(LogLevel::Error, msg) },
        EventKind::TimeoutHit => LogRecord {
            timeout_ms: Some(e.timeout_ms()),
            ..bare(LogLevel::Warn, msg)
        },
        EventKind::TaskStarting => LogRecord {
            attempt: Some(e.attempt()),
            ..bare(LogLevel::Info, msg)
        },
        EventKind::TaskStopped => bare(LogLevel::Trace, msg),
        EventKind::BackoffScheduled => {
            if e.has_reason() {
                LogRecord {
                    attempt: Some(e.attempt()),
                    delay_ms: Some(e.delay_ms()),
                    reason,
                    ..bare(LogLevel::Debug, "retry scheduled after failure")
                }
            } else {
                LogRecord {
                    attempt: Some(e.attempt()),
                    delay_ms: Some(e.delay_ms()),
                    ..bare(LogLevel::Debug, "next run scheduled after success")
                }
            }
        },
        EventKind::TaskFailed => LogRecord {
            attempt: Some(e.attempt()),
            reason,
            ..bare(LogLevel::Error, msg)
        },
        EventKind::ControllerRejected => LogRecord { reason, ..bare(LogLevel::Warn, msg) },
        EventKind::ControllerSubmitted => LogRecord { reason, ..bare(LogLevel::Trace, msg) },
        EventKind::ControllerSlotTransition => LogRecord { reason, ..bare(LogLevel::Debug, msg) },
    };
    r.task = task;
    r
}

} // verus!
