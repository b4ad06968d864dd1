use solti::status::TaskStatus;

#[test]
fn terminal_states() {
    assert!(TaskStatus::Succeeded.is_terminal());
    assert!(TaskStatus::Failed.is_terminal());
    assert!(TaskStatus::Timeout.is_terminal());
    assert!(TaskStatus::Canceled.is_terminal());
    assert!(TaskStatus::Exhausted.is_terminal());

    assert!(!TaskStatus::Pending.is_terminal());
    assert!(!TaskStatus::Running.is_terminal());
}

#[test]
fn active_states() {
    assert!(TaskStatus::Pending.is_active());
    assert!(TaskStatus::Running.is_active());

    assert!(!TaskStatus::Succeeded.is_active());
    assert!(!TaskStatus::Failed.is_active());
}

#[test]
fn every_status_is_active_or_terminal() {
    let all = [
        TaskStatus::Pending,
        TaskStatus::Running,
        TaskStatus::Succeeded,
        TaskStatus::Failed,
        TaskStatus::Timeout,
        TaskStatus::Canceled,
        TaskStatus::Exhausted,
    ];
    for s in all {
        assert_ne!(s.is_active(), s.is_terminal());
    }
}
