use solti::api::parse_status;
use solti::create_spec::CreateSpec;
use solti::event::{Event, EventKind};
use solti::kind::TaskKind;
use solti::listing::Cancel;
use solti::policy::{AdmissionStrategy, Factor, JitterStrategy, RestartStrategy};
use solti::query::TaskQuery;
use solti::runner::{AttemptEnd, Launch, TaskFailure};
use solti::state::TaskState;
use solti::status::TaskStatus;
use solti::task_id::TaskId;
use solti::wire::{
    SubprocessTask, WireAdmission, WireBackoff, WireCreateSpec, WireJitter, WireKind,
    WireRestart, WireTaskKind,
};

fn submission(command: &str, args: &[&str], restart: WireRestart, max_ms: u64) -> CreateSpec {
    CreateSpec::try_from(WireCreateSpec {
        slot: "s1".to_string(),
        kind: Some(WireTaskKind {
            kind: Some(WireKind::Subprocess(SubprocessTask {
                command: command.to_string(),
                args: args.iter().map(|a| a.to_string()).collect(),
                env: vec![],
                cwd: None,
                fail_on_non_zero: true,
            })),
        }),
        timeout_ms: 1000,
        restart: restart.code(),
        restart_interval_ms: None,
        backoff: Some(WireBackoff {
            jitter: WireJitter::Off.code(),
            first_ms: 100,
            max_ms,
            factor: Factor::from_bits(2.0f64.to_bits()),
        }),
        admission: WireAdmission::DropIfRunning.code(),
        labels: vec![],
    })
    .expect("a valid submission")
}

fn event(kind: EventKind) -> Event {
    Event::new(kind).with_task("t1")
}

fn statuses(state: &TaskState) -> (TaskStatus, u32, Option<String>) {
    let info = state.get(&TaskId::from("t1")).expect("the task is known");
    (info.status, info.attempt, info.error)
}

#[test]
fn happy_path_subprocess() {
    let spec = submission("/bin/true", &[], WireRestart::Never, 1000);
    assert_eq!(spec.restart, RestartStrategy::Never);
    assert_eq!(spec.admission, AdmissionStrategy::DropIfRunning);
    assert_eq!(spec.backoff.jitter, JitterStrategy::Off);
    assert!(matches!(spec.kind, TaskKind::Subprocess { ref command, .. } if command == "/bin/true"));

    let mut state = TaskState::new();
    state.apply_event(&event(EventKind::TaskAdded), "s1");
    assert_eq!(statuses(&state), (TaskStatus::Pending, 0, None));
    state.apply_event(&event(EventKind::TaskStarting), "s1");
    assert_eq!(statuses(&state), (TaskStatus::Running, 1, None));
    state.apply_event(&event(EventKind::TaskStopped), "s1");
    assert_eq!(statuses(&state), (TaskStatus::Succeeded, 1, None));
}

#[test]
fn retry_on_failure_until_exhausted() {
    let spec = submission("/bin/false", &[], WireRestart::OnFailure, 400);
    assert_eq!(spec.restart, RestartStrategy::OnFailure);
    assert_eq!((spec.backoff.first_ms, spec.backoff.max_ms), (100, 400));

    let launch = Launch::Program {
        name: "t1".to_string(),
        program: "/bin/false".to_string(),
        args: vec![],
        env: vec![],
        cwd: None,
        fail_on_non_zero: true,
    };
    let failed = launch.outcome(&AttemptEnd::Exited { success: false, code: Some(1) });
    assert!(matches!(failed, Err(TaskFailure::Fail { ref reason }) if reason == "exit code: 1"));

    let mut state = TaskState::new();
    state.apply_event(&event(EventKind::TaskAdded), "s1");
    for attempt in 1..=3u32 {
        state.apply_event(&event(EventKind::TaskStarting).with_attempt(attempt), "s1");
        assert_eq!(statuses(&state).1, attempt);
        state.apply_event(&event(EventKind::TaskFailed).with_reason("exit code: 1"), "s1");
        assert_eq!(
            statuses(&state),
            (TaskStatus::Failed, attempt, Some("exit code: 1".to_string()))
        );
    }
    state.apply_event(&event(EventKind::ActorExhausted), "s1");
    let (status, attempt, _) = statuses(&state);
    assert_eq!((status, attempt), (TaskStatus::Exhausted, 3));
    assert!(status.is_terminal());
}

#[test]
fn timeout_sets_status_and_error() {
    let spec = submission("/bin/sleep", &["10"], WireRestart::Never, 1000);
    assert!(matches!(spec.kind, TaskKind::Subprocess { ref args, .. } if args == &["10"]));

    let mut state = TaskState::new();
    state.apply_event(&event(EventKind::TaskAdded), "s1");
    state.apply_event(&event(EventKind::TaskStarting), "s1");
    state.apply_event(&event(EventKind::TimeoutHit).with_timeout(200), "s1");
    assert_eq!(statuses(&state), (TaskStatus::Timeout, 1, Some("timeout".to_string())));
    assert_eq!(parse_status("timeout").unwrap(), TaskStatus::Timeout);
}

#[test]
fn replaced_task_is_canceled() {
    let mut state = TaskState::new();
    state.apply_event(&Event::new(EventKind::TaskAdded).with_task("first"), "s4");
    state.apply_event(&Event::new(EventKind::TaskStarting).with_task("first"), "s4");
    state.apply_event(
        &Event::new(EventKind::TaskStopped).with_task("first").with_reason("canceled"),
        "s4",
    );
    state.apply_event(&Event::new(EventKind::TaskAdded).with_task("second"), "s4");
    state.apply_event(&Event::new(EventKind::TaskStarting).with_task("second"), "s4");
    assert_eq!(state.get(&TaskId::from("first")).unwrap().status, TaskStatus::Canceled);
    assert_eq!(state.get(&TaskId::from("second")).unwrap().status, TaskStatus::Running);
    let running = state.query(
        &TaskQuery::new().with_slot("s4").with_status(TaskStatus::Running),
    );
    assert_eq!(running.total, 1);
}

#[test]
fn rejected_submission_is_visible_as_failed() {
    let mut state = TaskState::new();
    state.apply_event(&event(EventKind::TaskAdded), "s1");
    state.apply_event(&event(EventKind::ControllerRejected).with_reason("queue_full"), "s1");
    assert_eq!(statuses(&state), (TaskStatus::Failed, 0, Some("queue_full".to_string())));
    assert_eq!(state.cancel_task(&TaskId::from("t1")).unwrap(), Cancel::Nothing);
}

#[test]
fn cancellation_of_pending() {
    let mut state = TaskState::new();
    state.apply_event(&event(EventKind::TaskAdded), "s6");
    assert_eq!(state.cancel_task(&TaskId::from("t1")).unwrap(), Cancel::Signal);
    state.apply_event(&event(EventKind::TaskStopped).with_reason("canceled"), "s6");
    assert_eq!(statuses(&state), (TaskStatus::Canceled, 0, None));
    assert_eq!(state.cancel_task(&TaskId::from("t1")).unwrap(), Cancel::Nothing);
}

#[test]
fn a_canceled_task_has_no_error() {
    let mut state = TaskState::new();
    state.apply_event(&event(EventKind::TaskAdded), "s1");
    state.apply_event(&event(EventKind::TaskStarting), "s1");
    state.apply_event(&event(EventKind::TaskFailed).with_reason("boom"), "s1");
    assert_eq!(statuses(&state).2, Some("boom".to_string()));
    state.apply_event(&event(EventKind::TaskStopped).with_reason("canceled"), "s1");
    assert_eq!(statuses(&state), (TaskStatus::Canceled, 1, None));

    let mut other = TaskState::new();
    other.apply_event(&event(EventKind::TaskAdded), "s1");
    other.apply_event(&event(EventKind::TaskFailed).with_reason("boom"), "s1");
    other.apply_event(&event(EventKind::TaskStopped).with_reason("done"), "s1");
    assert_eq!(statuses(&other), (TaskStatus::Succeeded, 0, Some("boom".to_string())));
}
