use vstd::prelude::*;

verus! {

/// Current execution state of a task.
#[derive(Clone, Copy, Debug, PartialEq, Eq, Structural)]
pub enum TaskStatus {
    /// Queued or waiting to start.
    Pending,
    /// Currently executing.
    Running,
    /// Completed successfully.
    Succeeded,
    /// Failed with an error.
    Failed,
    /// Exceeded its timeout.
    Timeout,
    /// Explicitly canceled.
    Canceled,
    /// Restart policy exhausted; no further attempts.
    Exhausted,
}

impl TaskStatus {
    /// A status is active while the task is pending or running.
    pub open spec fn active(self) -> bool {
        self == TaskStatus::Pending || self == TaskStatus::Running
    }

    /// Whether the task has reached a state from which it does not move on.
    pub fn is_terminal(&self) -> (r: bool)
        ensures
            r == !self.active(),
    {
        match self {
            TaskStatus::Pending | TaskStatus::Running => false,
            _ => true,
        }
    }

    /// Whether the task is still pending or running.
    pub fn is_active(&self) -> (r: bool)
        ensures
            r == self.active(),
    {
        match self {
            TaskStatus::Pending | TaskStatus::Running => true,
            _ => false,
        }
    }
}

} // verus!
