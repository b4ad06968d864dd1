//! Filters and pagination of task listings.

use crate::status::TaskStatus;
use crate::text::opt_view;
use vstd::prelude::*;
use vstd::string::StringExecFns;

verus! {

/// Page size of a query that names none.
pub const DEFAULT_LIMIT: usize = 100;

/// Largest page size.
pub const MAX_LIMIT: usize = 1000;

/// Filters and page of a task listing.
#[derive(Debug)]
pub struct TaskQuery {
    /// Only tasks of this slot.
    pub slot: Option<String>,
    /// Only tasks in this status.
    pub status: Option<TaskStatus>,
    /// Page size.
    pub limit: usize,
    /// Number of matching tasks to skip.
    pub offset: usize,
}

/// What a [`TaskQuery`] holds, as plain values.
pub struct TaskQueryView {
    pub slot: Option<Seq<char>>,
    pub status: Option<TaskStatus>,
    pub limit: usize,
    pub offset: usize,
}

impl View for TaskQuery {
    type V = TaskQueryView;

    open spec fn view(&self) -> TaskQueryView {
        TaskQueryView {
            slot: opt_view(self.slot),
            status: self.status,
            limit: self.limit,
            offset: self.offset,
        }
    }
}

/// One page of a listing.
#[derive(Debug)]
pub struct TaskPage<T> {
    /// The tasks on this page.
    pub items: Vec<T>,
    /// Number of tasks that match the filters, on whatever page.
    pub total: usize,
}

impl TaskQuery {
    /// No filter, the default page size, from the start.
    pub fn new() -> (r: Self)
        ensures
            r@ == (TaskQueryView { slot: None, status: None, limit: DEFAULT_LIMIT, offset: 0 }),
    {
        TaskQuery { slot: None, status: None, limit: DEFAULT_LIMIT, offset: 0 }
    }

    /// The same query, for tasks of `slot` only.
    pub fn with_slot(self, slot: &str) -> (r: Self)
        ensures
            r@ == (TaskQueryView { slot: Some(slot@), ..self@ }),
    {
        TaskQuery {
            slot: Some(String::from_str(slot)),
            status: self.status,
            limit: self.limit,
            offset: self.offset,
        }
    }

    /// The same query, for tasks in `status` only.
    pub fn with_status(self, status: TaskStatus) -> (r: Self)
        ensures
            r@ == (TaskQueryView { status: Some(status), ..self@ }),
    {
        TaskQuery { slot: self.slot, status: Some(status), limit: self.limit, offset: self.offset }
    }

    /// The same query with page size `limit`, or the largest page size
    /// where `limit` is above it.
    pub fn with_limit(self, limit: usize) -> (r: Self)
        ensures
            r@ == (TaskQueryView {
                limit: if limit <= MAX_LIMIT {
                    limit
                } else {
                    MAX_LIMIT
                },
                ..self@
            }),
    {
        let capped: usize = if limit <= MAX_LIMIT {
            limit
        } else {
            MAX_LIMIT
        };
        TaskQuery { slot: self.slot, status: self.status, limit: capped, offset: self.offset }
    }

    /// The same query, skipping the first `offset` matches.
    pub fn with_offset(self, offset: usize) -> (r: Self)
        ensures
            r@ == (TaskQueryView { offset, ..self@ }),
    {
        TaskQuery { slot: self.slot, status: self.status, limit: self.limit, offset }
    }
}

impl Clone for TaskQuery {
    fn clone(&self) -> (r: Self)
        ensures
            r@ == self@,
    {
        TaskQuery {
            slot: crate::text::clone_opt(&self.slot),
            status: self.status,
            limit: self.limit,
            offset: self.offset,
        }
    }
}

impl Default for TaskQuery {
    fn default() -> (r: Self)
        ensures
            r@ == (TaskQueryView { slot: None, status: None, limit: DEFAULT_LIMIT, offset: 0 }),
    {
        TaskQuery::new()
    }
}

} // verus!
