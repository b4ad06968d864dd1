//! What is known of one task.

use crate::status::TaskStatus;
use crate::task_id::TaskId;
use crate::text::{clone_opt, opt_view};
use vstd::prelude::*;

verus! {

/// Snapshot of one task.
#[derive(Debug)]
pub struct TaskInfo {
    /// Identifier of the task.
    pub id: TaskId,
    /// Slot the task was submitted to.
    pub slot: String,
    /// Current status.
    pub status: TaskStatus,
    /// Attempts started so far: zero on admission, one with the first start.
    pub attempt: u32,
    /// When the task was admitted, in seconds since the Unix epoch.
    pub created_at: u64,
    /// When the task last changed, in seconds since the Unix epoch.
    pub updated_at: u64,
    /// Reason of the last failure, if any.
    pub error: Option<String>,
}

/// What a [`TaskInfo`] holds, as plain values.
pub struct TaskInfoView {
    pub id: Seq<char>,
    pub slot: Seq<char>,
    pub status: TaskStatus,
    pub attempt: u32,
    pub created_at: u64,
    pub updated_at: u64,
    pub error: Option<Seq<char>>,
}

impl View for TaskInfo {
    type V = TaskInfoView;

    open spec fn view(&self) -> TaskInfoView {
        TaskInfoView {
            id: self.id@,
            slot: self.slot@,
            status: self.status,
            attempt: self.attempt,
            created_at: self.created_at,
            updated_at: self.updated_at,
            error: opt_view(self.error),
        }
    }
}

impl Clone for TaskInfo {
    fn clone(&self) -> (r: Self)
        ensures
            r@ == self@,
    {
        TaskInfo {
            id: self.id.clone(),
            slot: self.slot.clone(),
            status: self.status,
            attempt: self.attempt,
            created_at: self.created_at,
            updated_at: self.updated_at,
            error: clone_opt(&self.error),
        }
    }
}

/// The views of a list of snapshots.
pub open spec fn info_views(v: Seq<TaskInfo>) -> Seq<TaskInfoView> {
    v.map_values(|t: TaskInfo| t@)
}

} // verus!
