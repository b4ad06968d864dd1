use solti::api::ApiError;
use solti::event::{Event, EventKind};
use solti::listing::Cancel;
use solti::query::TaskQuery;
use solti::state::TaskState;
use solti::status::TaskStatus;
use solti::task_id::TaskId;

#[test]
fn add_and_get_task() {
    let mut state = TaskState::new();
    let id = TaskId::from("task-1");
    let slot = "demo-slot".to_string();

    state.add_task(id.clone(), slot.clone());

    let info = state.get(&id).expect("task should exist");
    assert_eq!(info.id, id);
    assert_eq!(info.slot, slot);
    assert_eq!(info.status, TaskStatus::Pending);
    assert_eq!(info.attempt, 0);
}

#[test]
fn update_status_changes_task_state() {
    let mut state = TaskState::new();
    let id = TaskId::from("task-1");

    state.add_task(id.clone(), "slot".to_string());
    state.update_status(&id, TaskStatus::Running, None);

    let info = state.get(&id).unwrap();
    assert_eq!(info.status, TaskStatus::Running);
    assert!(info.error.is_none());
}

#[test]
fn update_status_with_error() {
    let mut state = TaskState::new();
    let id = TaskId::from("task-1");

    state.add_task(id.clone(), "slot".to_string());
    state.update_status(&id, TaskStatus::Failed, Some("timeout".to_string()));

    let info = state.get(&id).unwrap();
    assert_eq!(info.status, TaskStatus::Failed);
    assert_eq!(info.error.as_deref(), Some("timeout"));
}

#[test]
fn increment_attempt_updates_counter() {
    let mut state = TaskState::new();
    let id = TaskId::from("task-1");

    state.add_task(id.clone(), "slot".to_string());
    state.increment_attempt(&id);
    state.increment_attempt(&id);

    let info = state.get(&id).unwrap();
    assert_eq!(info.attempt, 2);
}

#[test]
fn remove_task_deletes_from_state() {
    let mut state = TaskState::new();
    let id = TaskId::from("task-1");

    state.add_task(id.clone(), "slot".to_string());
    assert!(state.get(&id).is_some());

    state.remove_task(&id);
    assert!(state.get(&id).is_none());
}

#[test]
fn list_by_slot_returns_correct_tasks() {
    let mut state = TaskState::new();

    state.add_task(TaskId::from("task-1"), "slot-a".to_string());
    state.add_task(TaskId::from("task-2"), "slot-a".to_string());
    state.add_task(TaskId::from("task-3"), "slot-b".to_string());

    let slot_a_tasks = state.list_by_slot("slot-a");
    assert_eq!(slot_a_tasks.len(), 2);

    let slot_b_tasks = state.list_by_slot("slot-b");
    assert_eq!(slot_b_tasks.len(), 1);
}

#[test]
fn list_by_status_filters_correctly() {
    let mut state = TaskState::new();
    let id1 = TaskId::from("task-1");
    let id2 = TaskId::from("task-2");

    state.add_task(id1.clone(), "slot".to_string());
    state.add_task(id2.clone(), "slot".to_string());
    state.update_status(&id1, TaskStatus::Running, None);

    let running_tasks = state.list_by_status(TaskStatus::Running);
    assert_eq!(running_tasks.len(), 1);
    assert_eq!(running_tasks[0].id, id1);

    let pending_tasks = state.list_by_status(TaskStatus::Pending);
    assert_eq!(pending_tasks.len(), 1);
    assert_eq!(pending_tasks[0].id, id2);
}

#[test]
fn list_all_returns_all_tasks() {
    let mut state = TaskState::new();

    state.add_task(TaskId::from("task-1"), "slot-a".to_string());
    state.add_task(TaskId::from("task-2"), "slot-b".to_string());
    state.add_task(TaskId::from("task-3"), "slot-c".to_string());

    let all_tasks = state.list_all();
    assert_eq!(all_tasks.len(), 3);
}

fn setup_query_state() -> TaskState {
    let mut state = TaskState::new();
    // slot-a: 3 tasks (2 running, 1 pending)
    state.add_task(TaskId::from("a1"), "slot-a".to_string());
    state.add_task(TaskId::from("a2"), "slot-a".to_string());
    state.add_task(TaskId::from("a3"), "slot-a".to_string());
    state.update_status(&TaskId::from("a1"), TaskStatus::Running, None);
    state.update_status(&TaskId::from("a2"), TaskStatus::Running, None);

    // slot-b: 2 tasks (1 failed, 1 pending)
    state.add_task(TaskId::from("b1"), "slot-b".to_string());
    state.add_task(TaskId::from("b2"), "slot-b".to_string());
    state.update_status(&TaskId::from("b1"), TaskStatus::Failed, Some("err".into()));

    state
}

#[test]
fn query_no_filters_returns_all() {
    let state = setup_query_state();
    let page = state.query(&TaskQuery::new().with_limit(100));
    assert_eq!(page.total, 5);
    assert_eq!(page.items.len(), 5);
}

#[test]
fn query_by_slot_only() {
    let state = setup_query_state();
    let page = state.query(&TaskQuery::new().with_slot("slot-a"));
    assert_eq!(page.total, 3);
    assert_eq!(page.items.len(), 3);
}

#[test]
fn query_by_status_only() {
    let state = setup_query_state();
    let page = state.query(&TaskQuery::new().with_status(TaskStatus::Running));
    assert_eq!(page.total, 2);
    assert_eq!(page.items.len(), 2);
}

#[test]
fn query_by_slot_and_status() {
    let state = setup_query_state();
    let page = state.query(
        &TaskQuery::new()
            .with_slot("slot-a")
            .with_status(TaskStatus::Running),
    );
    assert_eq!(page.total, 2);
    assert!(page.items.iter().all(|t| t.status == TaskStatus::Running));
}

#[test]
fn query_by_slot_and_status_no_match() {
    let state = setup_query_state();
    let page = state.query(
        &TaskQuery::new()
            .with_slot("slot-b")
            .with_status(TaskStatus::Running),
    );
    assert_eq!(page.total, 0);
    assert!(page.items.is_empty());
}

#[test]
fn query_unknown_slot_returns_empty() {
    let state = setup_query_state();
    let page = state.query(&TaskQuery::new().with_slot("nonexistent"));
    assert_eq!(page.total, 0);
    assert!(page.items.is_empty());
}

#[test]
fn query_pagination_offset_and_limit() {
    let state = setup_query_state();
    // 5 total tasks, offset 2 limit 2 => items 2, total 5
    let page = state.query(&TaskQuery::new().with_limit(2).with_offset(2));
    assert_eq!(page.total, 5);
    assert_eq!(page.items.len(), 2);
}

#[test]
fn query_offset_beyond_total() {
    let state = setup_query_state();
    let page = state.query(&TaskQuery::new().with_offset(100));
    assert_eq!(page.total, 5);
    assert!(page.items.is_empty());
}

#[test]
fn query_limit_larger_than_remaining() {
    let state = setup_query_state();
    // offset 3, limit 100 => only 2 remaining
    let page = state.query(&TaskQuery::new().with_offset(3).with_limit(100));
    assert_eq!(page.total, 5);
    assert_eq!(page.items.len(), 2);
}

#[test]
fn query_slot_with_pagination() {
    let state = setup_query_state();
    // slot-a has 3 tasks, offset 1 limit 1 => 1 item, total 3
    let page = state.query(
        &TaskQuery::new()
            .with_slot("slot-a")
            .with_offset(1)
            .with_limit(1),
    );
    assert_eq!(page.total, 3);
    assert_eq!(page.items.len(), 1);
}

fn ids(items: &[solti::info::TaskInfo]) -> Vec<String> {
    items.iter().map(|t| t.id.to_string()).collect()
}

#[test]
fn listings_keep_the_order_of_admission() {
    let state = setup_query_state();
    assert_eq!(ids(&state.list_all()), vec!["a1", "a2", "a3", "b1", "b2"]);
    assert_eq!(ids(&state.list_by_slot("slot-a")), vec!["a1", "a2", "a3"]);
    assert_eq!(ids(&state.list_by_status(TaskStatus::Pending)), vec!["a3", "b2"]);
    let page = state.query(&TaskQuery::new().with_offset(1).with_limit(3));
    assert_eq!(ids(&page.items), vec!["a2", "a3", "b1"]);
}

#[test]
fn query_total_matches_listings() {
    let state = setup_query_state();
    let all = state.query(&TaskQuery::new());
    assert_eq!(all.total, state.list_all().len());
    let by_slot = state.query(&TaskQuery::new().with_slot("slot-b"));
    assert_eq!(by_slot.total, state.list_by_slot("slot-b").len());
    let by_status = state.query(&TaskQuery::new().with_status(TaskStatus::Failed));
    assert_eq!(by_status.total, state.list_by_status(TaskStatus::Failed).len());
    let both = state.query(
        &TaskQuery::new()
            .with_slot("slot-a")
            .with_status(TaskStatus::Pending),
    );
    let expected = state
        .list_by_slot("slot-a")
        .iter()
        .filter(|t| t.status == TaskStatus::Pending)
        .count();
    assert_eq!(both.total, expected);
    assert_eq!(both.total, 1);
}

#[test]
fn query_limit_is_capped_at_query_time() {
    let mut state = TaskState::new();
    for i in 0..1005 {
        state.add_task_at(TaskId::from(format!("t{i}")), "s".to_string(), 1);
    }
    let mut q = TaskQuery::new();
    q.limit = 5000;
    let page = state.query(&q);
    assert_eq!(page.total, 1005);
    assert_eq!(page.items.len(), 1000);
    assert_eq!(TaskQuery::new().with_limit(5000).limit, 1000);
    assert_eq!(TaskQuery::new().limit, 100);
    assert_eq!(TaskQuery::default().limit, 100);
    assert_eq!(TaskQuery::new().offset, 0);
}

#[test]
fn times_are_recorded() {
    let mut state = TaskState::new();
    let id = TaskId::from("t");
    state.add_task_at(id.clone(), "s".to_string(), 10);
    let info = state.get(&id).unwrap();
    assert_eq!((info.created_at, info.updated_at), (10, 10));
    state.update_status_at(&id, TaskStatus::Running, None, 20);
    let info = state.get(&id).unwrap();
    assert_eq!((info.created_at, info.updated_at), (10, 20));
    state.increment_attempt_at(&id, 30);
    let info = state.get(&id).unwrap();
    assert_eq!((info.created_at, info.updated_at, info.attempt), (10, 30, 1));
}

#[test]
fn update_without_error_keeps_the_error() {
    let mut state = TaskState::new();
    let id = TaskId::from("t");
    state.add_task(id.clone(), "s".to_string());
    state.update_status(&id, TaskStatus::Failed, Some("boom".to_string()));
    state.update_status(&id, TaskStatus::Running, None);
    let info = state.get(&id).unwrap();
    assert_eq!(info.status, TaskStatus::Running);
    assert_eq!(info.error.as_deref(), Some("boom"));
}

#[test]
fn unknown_task_changes_nothing() {
    let mut state = setup_query_state();
    let ghost = TaskId::from("nope");
    state.update_status(&ghost, TaskStatus::Failed, Some("x".to_string()));
    state.increment_attempt(&ghost);
    state.remove_task(&ghost);
    assert!(state.get(&ghost).is_none());
    assert_eq!(state.list_all().len(), 5);
    assert_eq!(state.list_by_status(TaskStatus::Failed).len(), 1);
}

#[test]
fn removal_updates_the_slot_listing() {
    let mut state = setup_query_state();
    state.remove_task(&TaskId::from("a2"));
    assert_eq!(ids(&state.list_by_slot("slot-a")), vec!["a1", "a3"]);
    assert_eq!(ids(&state.list_all()), vec!["a1", "a3", "b1", "b2"]);
    state.remove_task(&TaskId::from("b1"));
    state.remove_task(&TaskId::from("b2"));
    assert!(state.list_by_slot("slot-b").is_empty());
    let page = state.query(&TaskQuery::new().with_slot("slot-b"));
    assert_eq!(page.total, 0);
}

#[test]
fn readmission_replaces_the_task() {
    let mut state = TaskState::new();
    let id = TaskId::from("t");
    state.add_task(id.clone(), "one".to_string());
    state.increment_attempt(&id);
    state.add_task(TaskId::from("u"), "one".to_string());
    state.add_task(id.clone(), "two".to_string());
    assert_eq!(ids(&state.list_all()), vec!["u", "t"]);
    assert_eq!(ids(&state.list_by_slot("one")), vec!["u"]);
    assert_eq!(ids(&state.list_by_slot("two")), vec!["t"]);
    let info = state.get(&id).unwrap();
    assert_eq!(info.attempt, 0);
    assert_eq!(info.status, TaskStatus::Pending);
}

#[test]
fn attempt_counter_stops_at_its_largest() {
    let mut state = TaskState::new();
    let id = TaskId::from("t");
    state.add_task(id.clone(), "s".to_string());
    let mut last = 0;
    for _ in 0..50 {
        state.increment_attempt(&id);
        let now = state.get(&id).unwrap().attempt;
        assert!(now >= last);
        last = now;
    }
    assert_eq!(last, 50);
}

#[test]
fn events_are_projected_onto_the_state() {
    let mut state = TaskState::new();
    let id = TaskId::from("job");
    let added = Event::new(EventKind::TaskAdded).with_task("job");
    state.apply_event(&added, "slot-x");
    let info = state.get(&id).unwrap();
    assert_eq!(info.slot, "slot-x");
    assert_eq!((info.status, info.attempt), (TaskStatus::Pending, 0));

    state.apply_event(&Event::new(EventKind::TaskStarting).with_task("job"), "slot-x");
    let info = state.get(&id).unwrap();
    assert_eq!((info.status, info.attempt), (TaskStatus::Running, 1));

    let failed = Event::new(EventKind::TaskFailed).with_task("job").with_reason("boom");
    state.apply_event(&failed, "slot-x");
    let info = state.get(&id).unwrap();
    assert_eq!(info.status, TaskStatus::Failed);
    assert_eq!(info.error.as_deref(), Some("boom"));

    state.apply_event(&Event::new(EventKind::TaskStarting).with_task("job"), "slot-x");
    state.apply_event(&Event::new(EventKind::TimeoutHit).with_task("job"), "slot-x");
    let info = state.get(&id).unwrap();
    assert_eq!((info.status, info.attempt), (TaskStatus::Timeout, 2));
    assert_eq!(info.error.as_deref(), Some("timeout"));

    state.apply_event(&Event::new(EventKind::ActorExhausted).with_task("job"), "slot-x");
    assert_eq!(state.get(&id).unwrap().status, TaskStatus::Exhausted);

    state.apply_event(&Event::new(EventKind::TaskStopped).with_task("job"), "slot-x");
    assert_eq!(state.get(&id).unwrap().status, TaskStatus::Succeeded);

    let canceled = Event::new(EventKind::TaskStopped).with_task("job").with_reason("canceled");
    state.apply_event(&canceled, "slot-x");
    assert_eq!(state.get(&id).unwrap().status, TaskStatus::Canceled);

    let dead = Event::new(EventKind::ActorDead).with_task("job").with_reason("fatal");
    state.apply_event(&dead, "slot-x");
    let info = state.get(&id).unwrap();
    assert_eq!(info.status, TaskStatus::Failed);
    assert_eq!(info.error.as_deref(), Some("fatal"));

    let rejected = Event::new(EventKind::ControllerRejected).with_task("job").with_reason("running");
    state.apply_event(&rejected, "slot-x");
    assert_eq!(state.get(&id).unwrap().error.as_deref(), Some("running"));

    state.apply_event(&Event::new(EventKind::BackoffScheduled).with_task("job"), "slot-x");
    state.apply_event(&Event::new(EventKind::TaskStarting), "slot-x");
    assert_eq!(state.get(&id).unwrap().attempt, 2);

    state.apply_event(&Event::new(EventKind::TaskRemoved).with_task("job"), "slot-x");
    assert!(state.get(&id).is_none());
    assert!(TaskState::default().list_all().is_empty());
}

#[test]
fn cancellation_is_idempotent() {
    let mut state = TaskState::new();
    let id = TaskId::from("job");
    match state.cancel_task(&id) {
        Err(ApiError::TaskNotFound(which)) => assert_eq!(which, "job"),
        other => panic!("expected not found, got {:?}", other),
    }
    state.add_task(id.clone(), "s".to_string());
    assert_eq!(state.cancel_task(&id).unwrap(), Cancel::Signal);
    state.update_status(&id, TaskStatus::Running, None);
    assert_eq!(state.cancel_task(&id).unwrap(), Cancel::Signal);
    let stopped = Event::new(EventKind::TaskStopped).with_task("job").with_reason("canceled");
    state.apply_event(&stopped, "s");
    assert_eq!(state.get(&id).unwrap().status, TaskStatus::Canceled);
    for _ in 0..3 {
        assert_eq!(state.cancel_task(&id).unwrap(), Cancel::Nothing);
    }
    for status in [
        TaskStatus::Succeeded,
        TaskStatus::Failed,
        TaskStatus::Timeout,
        TaskStatus::Exhausted,
    ] {
        state.update_status(&id, status, None);
        assert_eq!(state.cancel_task(&id).unwrap(), Cancel::Nothing);
    }
    state.remove_task(&id);
    assert!(state.get(&id).is_none());
    assert_eq!(state.cancel_task(&id).unwrap(), Cancel::Nothing);
    assert!(matches!(
        state.cancel_task(&TaskId::from("never")),
        Err(ApiError::TaskNotFound(_))
    ));
}

#[test]
fn a_canceled_task_carries_no_error() {
    let mut state = TaskState::new();
    let id = TaskId::from("task-1");
    state.add_task(id.clone(), "slot".to_string());
    state.update_status(&id, TaskStatus::Running, None);
    state.update_status(&id, TaskStatus::Failed, Some("boom".to_string()));
    state.update_status(&id, TaskStatus::Running, None);
    assert_eq!(state.get(&id).unwrap().error.as_deref(), Some("boom"));
    state.update_status(&id, TaskStatus::Canceled, None);
    let info = state.get(&id).unwrap();
    assert_eq!(info.status, TaskStatus::Canceled);
    assert_eq!(info.error, None);

    state.update_status(&id, TaskStatus::Failed, Some("again".to_string()));
    state.update_status_at(&id, TaskStatus::Canceled, Some("ignored".to_string()), 9);
    let info = state.get(&id).unwrap();
    assert_eq!((info.status, info.error, info.updated_at), (TaskStatus::Canceled, None, 9));
}

#[test]
fn a_withdrawn_submission_is_told_apart() {
    let mut state = TaskState::new();
    let id = TaskId::from("t");
    assert!(!state.was_canceled(&id));
    state.add_task(id.clone(), "s".to_string());
    assert!(!state.was_canceled(&id));
    state.update_status(&id, TaskStatus::Canceled, None);
    assert!(state.was_canceled(&id));
    state.update_status(&id, TaskStatus::Failed, None);
    assert!(!state.was_canceled(&id));
}
