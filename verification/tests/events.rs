use solti::event::{log_event, message_for, Event, EventKind, LogLevel};
use solti::logger::Journal;

const KINDS: [EventKind; 19] = [
    EventKind::TaskAddRequested,
    EventKind::TaskAdded,
    EventKind::TaskRemoveRequested,
    EventKind::TaskRemoved,
    EventKind::ShutdownRequested,
    EventKind::AllStoppedWithinGrace,
    EventKind::GraceExceeded,
    EventKind::SubscriberOverflow,
    EventKind::SubscriberPanicked,
    EventKind::ActorExhausted,
    EventKind::ActorDead,
    EventKind::TaskStarting,
    EventKind::TaskStopped,
    EventKind::TaskFailed,
    EventKind::TimeoutHit,
    EventKind::BackoffScheduled,
    EventKind::ControllerRejected,
    EventKind::ControllerSubmitted,
    EventKind::ControllerSlotTransition,
];

#[test]
fn every_kind_has_its_message() {
    assert_eq!(message_for(EventKind::TaskAdded), "task added (actor spawned and registered)");
    assert_eq!(message_for(EventKind::TaskRemoved), "task removed (after join/cleanup)");
    assert_eq!(message_for(EventKind::TaskRemoveRequested), "request to remove a task");
    assert_eq!(message_for(EventKind::TaskAddRequested), "request to add a new task");
    assert_eq!(
        message_for(EventKind::GraceExceeded),
        "grace exceeded; some tasks did not stop in time"
    );
    assert_eq!(
        message_for(EventKind::AllStoppedWithinGrace),
        "all tasks stopped within grace period"
    );
    assert_eq!(message_for(EventKind::ShutdownRequested), "shutdown requested (OS signal)");
    assert_eq!(
        message_for(EventKind::SubscriberOverflow),
        "event dropped for a subscriber (queue full or worker closed)"
    );
    assert_eq!(
        message_for(EventKind::SubscriberPanicked),
        "subscriber panicked while processing an event"
    );
    assert_eq!(
        message_for(EventKind::ActorExhausted),
        "actor exhausted restart policy (no further restarts)"
    );
    assert_eq!(message_for(EventKind::ActorDead), "actor terminated permanently (fatal)");
    assert_eq!(message_for(EventKind::TaskStopped), "task stopped (success or graceful cancel)");
    assert_eq!(message_for(EventKind::TaskFailed), "task failed (non-fatal for this attempt)");
    assert_eq!(message_for(EventKind::TimeoutHit), "task exceeded its configured timeout");
    assert_eq!(message_for(EventKind::BackoffScheduled), "next attempt scheduled");
    assert_eq!(message_for(EventKind::TaskStarting), "task is starting");
    assert_eq!(message_for(EventKind::ControllerRejected), "queue rejected");
    assert_eq!(message_for(EventKind::ControllerSubmitted), "task submitted by controller");
    assert_eq!(message_for(EventKind::ControllerSlotTransition), "controller slot transition");
}

#[test]
fn event_fields_have_defaults() {
    let bare = Event::new(EventKind::TaskFailed);
    assert_eq!(bare.as_task(), "unknown");
    assert_eq!(bare.as_reason(), "unknown");
    assert_eq!((bare.attempt(), bare.delay_ms(), bare.timeout_ms()), (0, 0, 0));
    assert!(!bare.has_reason());
    assert_eq!(bare.kind(), EventKind::TaskFailed);
    let full = Event::new(EventKind::BackoffScheduled)
        .with_task("t")
        .with_reason("r")
        .with_attempt(3)
        .with_delay(250)
        .with_timeout(900);
    assert_eq!(full.as_task(), "t");
    assert_eq!(full.as_reason(), "r");
    assert_eq!((full.attempt(), full.delay_ms(), full.timeout_ms()), (3, 250, 900));
    assert!(full.has_reason());
}

#[test]
fn levels_of_the_log_lines() {
    let level = |kind| log_event(&Event::new(kind)).level;
    assert_eq!(level(EventKind::TaskRemoveRequested), LogLevel::Trace);
    assert_eq!(level(EventKind::TaskAddRequested), LogLevel::Trace);
    assert_eq!(level(EventKind::TaskRemoved), LogLevel::Trace);
    assert_eq!(level(EventKind::TaskAdded), LogLevel::Debug);
    assert_eq!(level(EventKind::ShutdownRequested), LogLevel::Info);
    assert_eq!(level(EventKind::AllStoppedWithinGrace), LogLevel::Info);
    assert_eq!(level(EventKind::GraceExceeded), LogLevel::Warn);
    assert_eq!(level(EventKind::SubscriberPanicked), LogLevel::Error);
    assert_eq!(level(EventKind::SubscriberOverflow), LogLevel::Error);
    assert_eq!(level(EventKind::ActorExhausted), LogLevel::Debug);
    assert_eq!(level(EventKind::ActorDead), LogLevel::Error);
    assert_eq!(level(EventKind::TimeoutHit), LogLevel::Warn);
    assert_eq!(level(EventKind::TaskStarting), LogLevel::Info);
    assert_eq!(level(EventKind::TaskStopped), LogLevel::Trace);
    assert_eq!(level(EventKind::BackoffScheduled), LogLevel::Debug);
    assert_eq!(level(EventKind::TaskFailed), LogLevel::Error);
    assert_eq!(level(EventKind::ControllerRejected), LogLevel::Warn);
    assert_eq!(level(EventKind::ControllerSubmitted), LogLevel::Trace);
    assert_eq!(level(EventKind::ControllerSlotTransition), LogLevel::Debug);
}

#[test]
fn fields_of_the_log_lines() {
    let e = Event::new(EventKind::TaskFailed).with_task("t").with_reason("boom").with_attempt(2);
    let r = log_event(&e);
    assert_eq!(r.message, "task failed (non-fatal for this attempt)");
    assert_eq!(r.task.as_deref(), Some("t"));
    assert_eq!(r.reason.as_deref(), Some("boom"));
    assert_eq!((r.attempt, r.delay_ms, r.timeout_ms), (Some(2), None, None));

    let r = log_event(&Event::new(EventKind::TimeoutHit).with_task("t").with_timeout(200));
    assert_eq!(r.task.as_deref(), Some("t"));
    assert_eq!((r.reason, r.attempt, r.delay_ms, r.timeout_ms), (None, None, None, Some(200)));

    let r = log_event(&Event::new(EventKind::TaskStarting).with_attempt(1));
    assert_eq!(r.task.as_deref(), Some("unknown"));
    assert_eq!((r.reason, r.attempt), (None, Some(1)));

    let r = log_event(&Event::new(EventKind::ShutdownRequested).with_task("t").with_reason("x"));
    assert_eq!((r.task, r.reason, r.attempt, r.delay_ms, r.timeout_ms), (None, None, None, None, None));

    let r = log_event(&Event::new(EventKind::ControllerRejected).with_task("t"));
    assert_eq!(r.reason.as_deref(), Some("unknown"));
    assert_eq!(r.message, "queue rejected");

    let r = log_event(&Event::new(EventKind::TaskAdded).with_task("t").with_reason("x"));
    assert_eq!((r.task.as_deref(), r.reason), (Some("t"), None));
}

#[test]
fn a_scheduled_attempt_is_described_by_what_it_follows() {
    let after_failure = Event::new(EventKind::BackoffScheduled)
        .with_task("t")
        .with_attempt(2)
        .with_delay(100)
        .with_reason("boom");
    let r = log_event(&after_failure);
    assert_eq!(r.level, LogLevel::Debug);
    assert_eq!(r.message, "retry scheduled after failure");
    assert_eq!(r.reason.as_deref(), Some("boom"));
    assert_eq!((r.attempt, r.delay_ms), (Some(2), Some(100)));

    let after_success = Event::new(EventKind::BackoffScheduled).with_task("t").with_delay(5000);
    let r = log_event(&after_success);
    assert_eq!(r.message, "next run scheduled after success");
    assert_eq!(r.reason, None);
    assert_eq!((r.attempt, r.delay_ms), (Some(0), Some(5000)));
}

#[test]
fn every_task_event_names_its_task() {
    for kind in KINDS {
        let r = log_event(&Event::new(kind).with_task("t"));
        let global = matches!(
            kind,
            EventKind::ShutdownRequested
                | EventKind::AllStoppedWithinGrace
                | EventKind::GraceExceeded
        );
        assert_eq!(r.task.is_none(), global, "{:?}", kind);
        if kind != EventKind::BackoffScheduled {
            assert_eq!(r.message, message_for(kind));
        }
    }
}

#[test]
fn journal_subscriber() {
    let journal = Journal::new();
    assert_eq!(journal.name(), "journal");
    assert_eq!(journal.queue_capacity(), 2048);
    let r = journal.on_event(&Event::new(EventKind::ActorDead).with_task("t").with_reason("x"));
    assert_eq!(r.level, LogLevel::Error);
    assert_eq!(r.reason.as_deref(), Some("x"));
}
