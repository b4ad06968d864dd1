use solti::event::EventKind;
use solti::ledger::{subject, Ledger, Subject};
use solti::task_id::TaskId;

fn id(s: &str) -> TaskId {
    TaskId::from(s)
}

fn ledger() -> Ledger {
    let mut l = Ledger::new();
    l.submitted("a", id("a1"));
    l.submitted("b", id("b1"));
    l.submitted("a", id("a2"));
    l.submitted("a", id("a3"));
    l
}

#[test]
fn nothing_runs_before_a_start() {
    let l = ledger();
    assert_eq!(l.running("a", 100), None);
    assert_eq!(l.running("nowhere", 100), None);
    assert_eq!(Ledger::default().running("a", 0), None);
    assert_eq!(Ledger::new().waiting("a"), None);
}

#[test]
fn an_event_belongs_to_the_attempt_that_ran() {
    let mut l = ledger();
    l.started(&id("a1"), 10);
    l.started(&id("b1"), 12);
    assert_eq!(l.running("a", 9), None);
    assert_eq!(l.running("a", 10), Some(id("a1")));
    assert_eq!(l.running("a", u64::MAX), Some(id("a1")));
    assert_eq!(l.running("b", 11), None);
    assert_eq!(l.running("b", 12), Some(id("b1")));
    l.started(&id("a2"), 30);
    assert_eq!(l.running("a", 29), Some(id("a1")));
    assert_eq!(l.running("a", 30), Some(id("a2")));
    assert_eq!(l.running("a", 31), Some(id("a2")));
    l.started(&id("a1"), 40);
    assert_eq!(l.running("a", 35), Some(id("a2")));
    assert_eq!(l.running("a", 45), Some(id("a2")));
    assert_eq!(l.running("a", 15), Some(id("a1")));
    l.started(&id("a3"), 40);
    assert_eq!(l.running("a", 40), Some(id("a3")));
}

#[test]
fn only_the_first_start_counts() {
    let mut l = ledger();
    assert!(!l.has_started(&id("a1")));
    assert!(!l.has_started(&id("nobody")));
    l.started(&id("a1"), 10);
    l.started(&id("a1"), 20);
    l.started(&id("nobody"), 5);
    assert!(l.has_started(&id("a1")));
    assert!(!l.has_started(&id("a2")));
    assert!(!l.has_started(&id("nobody")));
    assert_eq!(l.running("a", 10), Some(id("a1")));
    assert_eq!(l.running("a", 9), None);
}

#[test]
fn removal_forgets_the_submission() {
    let mut l = ledger();
    l.started(&id("a1"), 10);
    assert_eq!(l.attribute(EventKind::TaskStopped, "a", 11), Some(id("a1")));
    assert!(l.has_started(&id("a1")));
    assert_eq!(l.attribute(EventKind::TaskRemoved, "a", 12), Some(id("a1")));
    assert!(!l.has_started(&id("a1")));
    assert_eq!(l.attribute(EventKind::TaskStopped, "a", 13), None);
    assert_eq!(l.attribute(EventKind::TaskRemoved, "a", 13), None);
    assert_eq!(l.attribute(EventKind::ControllerRejected, "a", 13), Some(id("a3")));
    assert_eq!(l.waiting("a"), Some(id("a3")));
    assert_eq!(l.attribute(EventKind::TaskStarting, "a", 13), None);
}

#[test]
fn a_refusal_belongs_to_the_latest_submission_that_waits() {
    let mut l = ledger();
    assert_eq!(l.waiting("a"), Some(id("a3")));
    assert_eq!(l.waiting("b"), Some(id("b1")));
    assert_eq!(l.waiting("c"), None);
    l.started(&id("a3"), 5);
    assert_eq!(l.waiting("a"), Some(id("a2")));
    l.started(&id("a2"), 6);
    l.started(&id("a1"), 7);
    assert_eq!(l.waiting("a"), None);
    assert_eq!(l.waiting("b"), Some(id("b1")));
}

#[test]
fn forgotten_submissions_are_gone() {
    let mut l = ledger();
    l.started(&id("a1"), 10);
    l.started(&id("a2"), 20);
    l.forget(&id("a2"));
    assert_eq!(l.running("a", 25), Some(id("a1")));
    assert_eq!(l.waiting("a"), Some(id("a3")));
    l.forget(&id("a3"));
    l.forget(&id("unknown"));
    assert_eq!(l.waiting("a"), None);
    assert_eq!(l.waiting("b"), Some(id("b1")));
    l.forget(&id("a1"));
    assert_eq!(l.running("a", 25), None);
}

#[test]
fn events_are_resolved_by_their_subject() {
    let mut l = ledger();
    l.started(&id("a1"), 10);
    for kind in [
        EventKind::TaskStopped,
        EventKind::TaskFailed,
        EventKind::TimeoutHit,
        EventKind::BackoffScheduled,
        EventKind::ActorExhausted,
        EventKind::ActorDead,
        EventKind::TaskRemoveRequested,
        EventKind::TaskRemoved,
    ] {
        assert_eq!(subject(kind), Subject::Attempt);
        assert_eq!(l.resolve(kind, "a", 11), Some(id("a1")));
        assert_eq!(l.resolve(kind, "a", 9), None);
        assert_eq!(l.resolve(kind, "b", 11), None);
    }
    assert_eq!(subject(EventKind::ControllerRejected), Subject::Submission);
    assert_eq!(l.resolve(EventKind::ControllerRejected, "a", 0), Some(id("a3")));
    for kind in [
        EventKind::TaskAdded,
        EventKind::TaskAddRequested,
        EventKind::TaskStarting,
        EventKind::ControllerSubmitted,
        EventKind::ControllerSlotTransition,
        EventKind::ShutdownRequested,
        EventKind::AllStoppedWithinGrace,
        EventKind::GraceExceeded,
        EventKind::SubscriberOverflow,
        EventKind::SubscriberPanicked,
    ] {
        assert_eq!(subject(kind), Subject::Neither);
        assert_eq!(l.resolve(kind, "a", 11), None);
    }
}
