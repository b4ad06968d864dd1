//! The submission record.

use crate::kind::{TaskKind, TaskKindView};
use crate::labels::RunnerLabels;
use crate::policy::{AdmissionStrategy, BackoffStrategy, RestartStrategy};
use crate::text::blank;
use vstd::prelude::*;

verus! {

/// What a client submits: where the task goes, how it runs, and the
/// policies that govern it.
#[derive(Debug)]
pub struct CreateSpec {
    /// Slot whose admission policy the task is subject to.
    pub slot: String,
    /// How the task is executed.
    pub kind: TaskKind,
    /// Time limit of one attempt, in milliseconds.
    pub timeout_ms: u64,
    /// When the task is run again.
    pub restart: RestartStrategy,
    /// Delay between retries.
    pub backoff: BackoffStrategy,
    /// What happens when the slot is busy.
    pub admission: AdmissionStrategy,
    /// Labels by which the router picks among capable runners.
    pub labels: RunnerLabels,
}

/// What a [`CreateSpec`] holds, as plain values.
pub struct CreateSpecView {
    pub slot: Seq<char>,
    pub kind: TaskKindView,
    pub timeout_ms: u64,
    pub restart: RestartStrategy,
    pub backoff: BackoffStrategy,
    pub admission: AdmissionStrategy,
    pub labels: Map<Seq<char>, Seq<char>>,
}

impl CreateSpecView {
    /// The record is one that validation lets through: the slot is not
    /// blank, the timeout and the backoff parameters are greater than
    /// zero, and the kind names what to run.
    pub open spec fn valid(self) -> bool {
        &&& !blank(self.slot)
        &&& self.timeout_ms > 0
        &&& self.backoff.valid()
        &&& self.kind.valid()
    }
}

impl View for CreateSpec {
    type V = CreateSpecView;

    open spec fn view(&self) -> CreateSpecView {
        CreateSpecView {
            slot: self.slot@,
            kind: self.kind@,
            timeout_ms: self.timeout_ms,
            restart: self.restart,
            backoff: self.backoff,
            admission: self.admission,
            labels: self.labels@,
        }
    }
}

impl Clone for CreateSpec {
    fn clone(&self) -> (r: Self)
        ensures
            r@ == self@,
    {
        CreateSpec {
            slot: self.slot.clone(),
            kind: self.kind.clone(),
            timeout_ms: self.timeout_ms,
            restart: self.restart,
            backoff: self.backoff,
            admission: self.admission,
            labels: self.labels.clone(),
        }
    }
}

} // verus!
