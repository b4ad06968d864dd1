//! The task state: every task the supervisor knows, with an index of the
//! tasks of each slot.

use crate::api::{ApiError, ApiErrorView};
use crate::clock::unix_now;
use crate::event::{Event, EventKind};
use crate::info::{info_views, TaskInfo, TaskInfoView};
use crate::listing::{
    after_add, after_attempt, after_event, after_remove, after_update, admitted, attempted,
    cancel_of, distinct_ids, found, ids_of, in_slot, in_status,
    lemma_filter_all, lemma_filter_distinct, lemma_filter_empty, lemma_filter_members,
    lemma_filter_none, lemma_filter_push, lemma_filter_twice, lemma_found_absent, lemma_found_at,
    lemma_remove_absent, lemma_remove_is_filter, lemma_same_slot_ids, lemma_slot_ids_after_remove,
    moved, not_id, other_than, page_of, seen_after, selected_by, Cancel,
};
use crate::query::{TaskPage, TaskQuery, MAX_LIMIT};
use crate::status::TaskStatus;
use crate::task_id::TaskId;
use crate::text::{clone_opt, opt_view, str_eq};
use vstd::prelude::*;
use vstd::string::StringExecFns;

verus! {

/// The identifiers of the tasks of one slot, in the order of admission.
struct SlotEntry {
    slot: String,
    ids: Vec<TaskId>,
}

/// The views of a list of identifiers.
spec fn id_views(ids: Seq<TaskId>) -> Seq<Seq<char>> {
    ids.map_values(|i: TaskId| i@)
}

/// The tasks at the positions `pos`.
spec fn at(tasks: Seq<TaskInfoView>, pos: Seq<usize>) -> Seq<TaskInfoView> {
    pos.map_values(|p: usize| tasks[p as int])
}

/// Taking one identifier out of a list without repetitions is filtering
/// it out.
proof fn lemma_remove_id(ids: Seq<Seq<char>>, q: int)
    requires
        forall|i: int, j: int| 0 <= i < j < ids.len() ==> ids[i] != ids[j],
        0 <= q < ids.len(),
    ensures
        ids.remove(q) == ids.filter(not_id(ids[q])),
    decreases ids.len(),
{
    reveal(Seq::filter);
    let id = ids[q];
    let keep = not_id(id);
    let rest = ids.drop_last();
    if q == ids.len() - 1 {
        assert(ids.remove(q) == rest);
        assert forall|i: int| 0 <= i < rest.len() implies keep(#[trigger] rest[i]) by {
            assert(ids[i] != ids[q]);
        }
        lemma_filter_all(rest, keep);
    } else {
        lemma_remove_id(rest, q);
        assert(rest[q] == ids[q]);
        assert(ids[q] != ids[ids.len() - 1]);
        assert(ids.remove(q) == rest.remove(q).push(ids.last()));
    }
}

/// Every task the supervisor knows, in the order of admission.
pub struct TaskState {
    tasks: Vec<TaskInfo>,
    by_slot: Vec<SlotEntry>,
    seen: Vec<TaskId>,
}

impl View for TaskState {
    type V = Seq<TaskInfoView>;

    closed spec fn view(&self) -> Seq<TaskInfoView> {
        info_views(self.tasks@)
    }
}

impl TaskState {
    /// Whether the index has an entry for `slot`.
    spec fn indexed(&self, slot: Seq<char>) -> bool {
        exists|k: int| 0 <= k < self.by_slot@.len() && (#[trigger] self.by_slot@[k]).slot@ == slot
    }

    /// Every identifier that was ever admitted, whether its task is still
    /// known or was removed.
    pub closed spec fn seen(&self) -> Set<Seq<char>> {
        id_views(self.seen@).to_set()
    }

    /// The index agrees with the tasks: no two tasks share an identifier,
    /// no two entries of the index share a slot, every entry lists the
    /// identifiers of the tasks of its slot, in their order, and the slot
    /// of every task has an entry. The identifier of every task is among
    /// those seen.
    pub closed spec fn wf(&self) -> bool {
        &&& distinct_ids(self@)
        &&& forall|i: int|
            0 <= i < self.tasks@.len() ==> self.seen().contains((#[trigger] self@[i]).id)
        &&& forall|a: int, b: int|
            0 <= a < b < self.by_slot@.len() ==> self.by_slot@[a].slot@ != self.by_slot@[b].slot@
        &&& forall|k: int|
            0 <= k < self.by_slot@.len() ==> id_views((#[trigger] self.by_slot@[k]).ids@)
                == ids_of(self@.filter(in_slot(self.by_slot@[k].slot@)))
        &&& forall|i: int| 0 <= i < self.tasks@.len() ==> self.indexed((#[trigger] self@[i]).slot)
    }

    /// In a state that is well formed no two tasks share an identifier,
    /// and every task was seen.
    pub proof fn lemma_distinct(&self)
        requires
            self.wf(),
        ensures
            distinct_ids(self@),
            forall|i: int| 0 <= i < self@.len() ==> self.seen().contains((#[trigger] self@[i]).id),
    {
    }

    /// The state that knows no task.
    pub fn new() -> (r: Self)
        ensures
            r.wf(),
            r@ == Seq::<TaskInfoView>::empty(),
            r.seen() == Set::<Seq<char>>::empty(),
    {
        let r = TaskState { tasks: Vec::new(), by_slot: Vec::new(), seen: Vec::new() };
        assert(r@ =~= Seq::<TaskInfoView>::empty());
        assert(r.seen() =~= Set::<Seq<char>>::empty());
        r
    }

    /// Whether `id` was ever admitted.
    fn was_seen(&self, id: &TaskId) -> (r: bool)
        ensures
            r == self.seen().contains(id@),
    {
        let mut i: usize = 0;
        while i < self.seen.len()
            invariant
                i <= self.seen@.len(),
                forall|j: int| 0 <= j < i ==> (#[trigger] self.seen@[j])@ != id@,
            decreases self.seen@.len() - i,
        {
            if self.seen[i].same(id) {
                assert(id_views(self.seen@)[i as int] == id@);
                return true;
            }
            i = i + 1;
        }
        assert forall|j: int| 0 <= j < self.seen@.len() implies id_views(self.seen@)[j]
            != id@ by {
            assert(self.seen@[j]@ != id@);
        }
        false
    }

    /// Position of the task identified by `id`.
    fn position(&self, id: &TaskId) -> (r: Option<usize>)
        ensures
            match r {
                Some(p) => p < self@.len() && self@[p as int].id == id@,
                None => forall|i: int| 0 <= i < self@.len() ==> (#[trigger] self@[i]).id != id@,
            },
    {
        let mut i: usize = 0;
        while i < self.tasks.len()
            invariant
                i <= self.tasks@.len(),
                self@.len() == self.tasks@.len(),
                forall|j: int| 0 <= j < i ==> (#[trigger] self@[j]).id != id@,
            decreases self.tasks@.len() - i,
        {
            if self.tasks[i].id.same(id) {
                return Some(i);
            }
            i = i + 1;
        }
        None
    }

    /// Position of the index entry of `slot`.
    fn slot_position(&self, slot: &str) -> (r: Option<usize>)
        ensures
            match r {
                Some(k) => k < self.by_slot@.len() && self.by_slot@[k as int].slot@ == slot@,
                None => !self.indexed(slot@),
            },
    {
        let mut k: usize = 0;
        while k < self.by_slot.len()
            invariant
                k <= self.by_slot@.len(),
                forall|j: int| 0 <= j < k ==> (#[trigger] self.by_slot@[j]).slot@ != slot@,
            decreases self.by_slot@.len() - k,
        {
            if str_eq(self.by_slot[k].slot.as_str(), slot) {
                return Some(k);
            }
            k = k + 1;
        }
        None
    }

    /// Takes `id` out of the index entry at `k`.
    fn unindex(&mut self, k: usize, id: &TaskId)
        requires
            k < old(self).by_slot@.len(),
            forall|i: int, j: int|
                0 <= i < j < old(self).by_slot@[k as int].ids@.len() ==> old(
                    self,
                ).by_slot@[k as int].ids@[i]@ != old(self).by_slot@[k as int].ids@[j]@,
        ensures
            final(self).tasks == old(self).tasks,
            final(self).seen == old(self).seen,
            final(self).by_slot@.len() == old(self).by_slot@.len(),
            forall|j: int|
                0 <= j < old(self).by_slot@.len() && j != k ==> final(self).by_slot@[j] == old(
                    self,
                ).by_slot@[j],
            final(self).by_slot@[k as int].slot == old(self).by_slot@[k as int].slot,
            id_views(final(self).by_slot@[k as int].ids@) == id_views(
                old(self).by_slot@[k as int].ids@,
            ).filter(not_id(id@)),
    {
        let ghost before = id_views(self.by_slot@[k as int].ids@);
        let ghost keep = not_id(id@);
        assert forall|i: int, j: int| 0 <= i < j < before.len() implies before[i] != before[j] by {
            assert(self.by_slot@[k as int].ids@[i]@ != self.by_slot@[k as int].ids@[j]@);
        }
        let n: usize = self.by_slot[k].ids.len();
        let mut q: usize = 0;
        while q < n
            invariant
                k < self.by_slot@.len(),
                self.by_slot == old(self).by_slot,
                self.tasks == old(self).tasks,
                self.seen == old(self).seen,
                forall|i: int, j: int| 0 <= i < j < before.len() ==> before[i] != before[j],
                n == self.by_slot@[k as int].ids@.len(),
                q <= n,
                before == id_views(self.by_slot@[k as int].ids@),
                forall|j: int| 0 <= j < q ==> (#[trigger] before[j]) != id@,
            decreases n - q,
        {
            if self.by_slot[k].ids[q].same(id) {
                proof {
                    lemma_remove_id(before, q as int);
                    assert(before[q as int] == id@);
                }
                self.by_slot[k].ids.remove(q);
                assert(id_views(self.by_slot@[k as int].ids@) =~= before.remove(q as int));
                return ;
            }
            q = q + 1;
        }
        proof {
            lemma_filter_all(before, keep);
        }
    }

    /// Forgets the task identified by `id`, in the list of tasks and in
    /// the index of its slot.
    pub fn remove_task(&mut self, id: &TaskId)
        requires
            old(self).wf(),
        ensures
            final(self).wf(),
            final(self)@ == after_remove(old(self)@, id@),
            final(self).seen() == old(self).seen(),
    {
        match self.position(id) {
            None => {
                proof {
                    lemma_remove_absent(self@, id@);
                }
            },
            Some(p) => {
                let ghost before = self@;
                let info = self.tasks.remove(p);
                assert(self@ =~= before.remove(p as int));
                proof {
                    lemma_remove_is_filter(before, p as int);
                    lemma_filter_distinct(before, other_than(id@));
                }
                let found_slot = self.slot_position(info.slot.as_str());
                match found_slot {
                    Some(k) => {
                        proof {
                            assert(self.by_slot == old(self).by_slot);
                            let entry = old(self).by_slot@[k as int];
                            let f = before.filter(in_slot(entry.slot@));
                            lemma_filter_distinct(before, in_slot(entry.slot@));
                            assert(id_views(entry.ids@) == ids_of(f));
                            assert forall|i: int, j: int|
                                0 <= i < j < entry.ids@.len() implies entry.ids@[i]@
                                != entry.ids@[j]@ by {
                                assert(id_views(entry.ids@)[i] == ids_of(f)[i]);
                                assert(id_views(entry.ids@)[j] == ids_of(f)[j]);
                                assert(f[i].id != f[j].id);
                            }
                        }
                        self.unindex(k, id);
                    },
                    None => {},
                }
                proof {
                    assert forall|j: int| 0 <= j < self.by_slot@.len() implies id_views(
                        (#[trigger] self.by_slot@[j]).ids@,
                    ) == ids_of(self@.filter(in_slot(self.by_slot@[j].slot@))) by {
                        let slot = self.by_slot@[j].slot@;
                        let ids = id_views(old(self).by_slot@[j].ids@);
                        lemma_slot_ids_after_remove(before, id@, slot);
                        assert(ids == ids_of(before.filter(in_slot(slot))));
                        if found_slot is Some && found_slot->0 == j {
                        } else {
                            assert(slot != info.slot@);
                            let f = before.filter(in_slot(slot));
                            assert forall|x: int| 0 <= x < ids.len() implies not_id(id@)(
                                #[trigger] ids[x],
                            ) by {
                                let i = lemma_filter_members(before, in_slot(slot), x);
                                assert(ids[x] == ids_of(f)[x]);
                                assert(before[i].slot == slot);
                                assert(before[p as int].slot == info.slot@);
                                if i < p {
                                    assert(before[i].id != before[p as int].id);
                                } else if p < i {
                                    assert(before[p as int].id != before[i].id);
                                }
                            }
                            lemma_filter_all(ids, not_id(id@));
                        }
                    }
                    assert forall|i: int| 0 <= i < self.tasks@.len() implies self.indexed(
                        (#[trigger] self@[i]).slot,
                    ) && self.seen().contains(self@[i].id) by {
                        let i0 = if i < p {
                            i
                        } else {
                            i + 1
                        };
                        assert(self@[i] == before[i0]);
                        assert(old(self).seen().contains(before[i0].id));
                        assert(old(self).indexed(before[i0].slot));
                        let k = choose|k: int|
                            0 <= k < old(self).by_slot@.len() && (#[trigger] old(
                                self,
                            ).by_slot@[k]).slot@ == before[i0].slot;
                        assert(self.by_slot@[k].slot@ == before[i0].slot);
                    }
                }
            },
        }
    }

    /// Admits the task `id` to `slot` at the time `now`. A task that had
    /// the identifier before is forgotten first.
    pub fn add_task_at(&mut self, id: TaskId, slot: String, now: u64)
        requires
            old(self).wf(),
        ensures
            final(self).wf(),
            final(self)@ == after_add(old(self)@, id@, slot@, now),
            final(self).seen() == old(self).seen().insert(id@),
    {
        self.remove_task(&id);
        if !self.was_seen(&id) {
            let ghost before = id_views(self.seen@);
            self.seen.push(id.clone());
            assert(id_views(self.seen@) =~= before.push(id@));
            assert(before.push(id@).to_set() =~= before.to_set().insert(id@)) by {
                assert forall|x: Seq<char>| before.push(id@).contains(x) implies before.to_set()
                    .insert(id@).contains(x) by {
                    let k = choose|k: int|
                        0 <= k < before.push(id@).len() && before.push(id@)[k] == x;
                    if k < before.len() {
                        assert(before[k] == x);
                    }
                }
                assert forall|x: Seq<char>|
                    before.to_set().insert(id@).contains(x) implies before.push(id@).contains(
                    x,
                ) by {
                    if x == id@ {
                        assert(before.push(id@)[before.len() as int] == x);
                    } else {
                        let k = choose|k: int| 0 <= k < before.len() && before[k] == x;
                        assert(before.push(id@)[k] == x);
                    }
                }
            }
        } else {
            assert(self.seen().insert(id@) =~= self.seen());
        }
        let ghost mid = self@;
        let ghost mid_state = *self;
        let ghost t = admitted(id@, slot@, now);
        proof {
            assert forall|i: int| 0 <= i < mid.len() implies (#[trigger] mid[i]).id != id@ by {
                let i0 = lemma_filter_members(old(self)@, other_than(id@), i);
            }
        }
        let found_slot = self.slot_position(slot.as_str());
        match found_slot {
            Some(k) => {
                self.by_slot[k].ids.push(id.clone());
                assert(id_views(self.by_slot@[k as int].ids@) =~= id_views(
                    mid_state.by_slot@[k as int].ids@,
                ).push(id@));
            },
            None => {
                let mut ids: Vec<TaskId> = Vec::new();
                ids.push(id.clone());
                self.by_slot.push(SlotEntry { slot: slot.clone(), ids });
                assert(id_views(self.by_slot@[self.by_slot@.len() - 1].ids@) =~= seq![id@]);
            },
        }
        let info = TaskInfo {
            id,
            slot,
            status: TaskStatus::Pending,
            attempt: 0,
            created_at: now,
            updated_at: now,
            error: None,
        };
        self.tasks.push(info);
        assert(self@ =~= mid.push(t));
        proof {
            assert forall|j: int| 0 <= j < self.by_slot@.len() implies id_views(
                (#[trigger] self.by_slot@[j]).ids@,
            ) == ids_of(self@.filter(in_slot(self.by_slot@[j].slot@))) by {
                let s = self.by_slot@[j].slot@;
                lemma_filter_push(mid, t, in_slot(s));
                let f = mid.filter(in_slot(s));
                if j < mid_state.by_slot@.len() {
                    assert(id_views(mid_state.by_slot@[j].ids@) == ids_of(f));
                    if s == slot@ {
                        assert(found_slot is Some && found_slot->0 == j);
                        assert(ids_of(f.push(t)) =~= ids_of(f).push(id@));
                    } else {
                        assert(!(found_slot is Some && found_slot->0 == j));
                    }
                } else {
                    assert(s == slot@);
                    assert forall|i: int| 0 <= i < mid.len() implies !in_slot(s)(
                        #[trigger] mid[i],
                    ) by {
                        if mid[i].slot == slot@ {
                            assert(mid_state.indexed(mid[i].slot));
                        }
                    }
                    lemma_filter_none(mid, in_slot(s));
                    assert(ids_of(Seq::<TaskInfoView>::empty().push(t)) =~= seq![id@]);
                }
            }
            assert forall|i: int| 0 <= i < self.tasks@.len() implies self.indexed(
                (#[trigger] self@[i]).slot,
            ) && self.seen().contains(self@[i].id) by {
                if i < mid.len() {
                    assert(self@[i] == mid[i]);
                    assert(mid_state.seen().contains(mid[i].id));
                    assert(mid_state.indexed(mid[i].slot));
                    let k = choose|k: int|
                        0 <= k < mid_state.by_slot@.len() && (
                        #[trigger] mid_state.by_slot@[k]).slot@ == mid[i].slot;
                    assert(self.by_slot@[k].slot@ == mid[i].slot);
                } else {
                    match found_slot {
                        Some(k) => {
                            assert(self.by_slot@[k as int].slot@ == slot@);
                        },
                        None => {
                            assert(self.by_slot@[self.by_slot@.len() - 1].slot@ == slot@);
                        },
                    }
                }
            }
        }
    }

    /// Admits the task `id` to `slot` now.
    pub fn add_task(&mut self, id: TaskId, slot: String)
        requires
            old(self).wf(),
        ensures
            final(self).wf(),
            exists|now: u64| final(self)@ == after_add(old(self)@, id@, slot@, now),
            final(self).seen() == old(self).seen().insert(id@),
    {
        let now: u64 = unix_now();
        self.add_task_at(id, slot, now);
    }

    /// Records at the time `now` that the task `id` is in `status`. A
    /// canceled task has no error; for every other status an error
    /// replaces the one on record. An unknown task changes nothing.
    pub fn update_status_at(
        &mut self,
        id: &TaskId,
        status: TaskStatus,
        error: Option<String>,
        now: u64,
    )
        requires
            old(self).wf(),
        ensures
            final(self).wf(),
            final(self)@ == after_update(old(self)@, id@, status, opt_view(error), now),
            final(self).seen() == old(self).seen(),
    {
        let ghost before = self@;
        match self.position(id) {
            Some(p) => {
                self.tasks[p].status = status;
                self.tasks[p].updated_at = now;
                match status {
                    TaskStatus::Canceled => {
                        self.tasks[p].error = None;
                    },
                    _ => {
                        if let Some(err) = error {
                            self.tasks[p].error = Some(err);
                        }
                    },
                }
                proof {
                    assert(self@[p as int] == moved(
                        before[p as int],
                        status,
                        opt_view(error),
                        now,
                    ));
                    assert forall|i: int| 0 <= i < before.len() && i != p implies self@[i]
                        == before[i] && before[i].id != id@ by {
                        if i < p {
                            assert(before[i].id != before[p as int].id);
                        } else {
                            assert(before[p as int].id != before[i].id);
                        }
                    }
                }
            },
            None => {},
        }
        assert(self@ =~= after_update(before, id@, status, opt_view(error), now));
        proof {
            self.lemma_touched(*old(self));
        }
    }

    /// Records now that the task `id` is in `status`; a canceled task has
    /// no error.
    pub fn update_status(&mut self, id: &TaskId, status: TaskStatus, error: Option<String>)
        requires
            old(self).wf(),
        ensures
            final(self).wf(),
            exists|now: u64|
                final(self)@ == after_update(old(self)@, id@, status, opt_view(error), now),
            final(self).seen() == old(self).seen(),
    {
        let now: u64 = unix_now();
        self.update_status_at(id, status, error, now);
    }

    /// Counts at the time `now` one more attempt of the task `id`. An
    /// unknown task changes nothing.
    pub fn increment_attempt_at(&mut self, id: &TaskId, now: u64)
        requires
            old(self).wf(),
        ensures
            final(self).wf(),
            final(self)@ == after_attempt(old(self)@, id@, now),
            final(self).seen() == old(self).seen(),
    {
        let ghost before = self@;
        match self.position(id) {
            Some(p) => {
                let n: u32 = self.tasks[p].attempt;
                if n < u32::MAX {
                    self.tasks[p].attempt = n + 1;
                }
                self.tasks[p].updated_at = now;
                proof {
                    assert(self@[p as int] == attempted(before[p as int], now));
                    assert forall|i: int| 0 <= i < before.len() && i != p implies self@[i]
                        == before[i] && before[i].id != id@ by {
                        if i < p {
                            assert(before[i].id != before[p as int].id);
                        } else {
                            assert(before[p as int].id != before[i].id);
                        }
                    }
                }
            },
            None => {},
        }
        assert(self@ =~= after_attempt(before, id@, now));
        proof {
            self.lemma_touched(*old(self));
        }
    }

    /// Counts now one more attempt of the task `id`.
    pub fn increment_attempt(&mut self, id: &TaskId)
        requires
            old(self).wf(),
        ensures
            final(self).wf(),
            exists|now: u64| final(self)@ == after_attempt(old(self)@, id@, now),
            final(self).seen() == old(self).seen(),
    {
        let now: u64 = unix_now();
        self.increment_attempt_at(id, now);
    }

    /// A state stays well formed when its tasks change but keep their
    /// identifiers and slots.
    proof fn lemma_touched(&self, before: TaskState)
        requires
            before.wf(),
            self.by_slot == before.by_slot,
            self.seen == before.seen,
            self@.len() == before@.len(),
            forall|i: int|
                0 <= i < self@.len() ==> self@[i].id == before@[i].id && self@[i].slot
                    == before@[i].slot,
        ensures
            self.wf(),
    {
        assert forall|k: int| 0 <= k < self.by_slot@.len() implies id_views(
            (#[trigger] self.by_slot@[k]).ids@,
        ) == ids_of(self@.filter(in_slot(self.by_slot@[k].slot@))) by {
            lemma_same_slot_ids(self@, before@, self.by_slot@[k].slot@);
        }
        assert forall|i: int| 0 <= i < self.tasks@.len() implies self.indexed(
            (#[trigger] self@[i]).slot,
        ) && self.seen().contains(self@[i].id) by {
            assert(before.indexed(before@[i].slot));
            assert(before.seen().contains(before@[i].id));
        }
        assert forall|i: int, j: int| 0 <= i < j < self@.len() implies self@[i].id
            != self@[j].id by {
            assert(before@[i].id != before@[j].id);
        }
    }

    /// Takes the event `event` in at the time `now`; `slot` is the slot
    /// that the task of the event was submitted to.
    pub fn apply_event_at(&mut self, event: &Event, slot: &str, now: u64)
        requires
            old(self).wf(),
        ensures
            final(self).wf(),
            final(self)@ == after_event(old(self)@, event@, slot@, now),
            final(self).seen() == seen_after(old(self).seen(), event@),
    {
        let id = match &event.task {
            Some(name) => TaskId::new(name.as_str()),
            None => {
                return ;
            },
        };
        match event.kind {
            EventKind::TaskAdded => {
                self.add_task_at(id, String::from_str(slot), now);
            },
            EventKind::TaskStarting => {
                self.increment_attempt_at(&id, now);
                self.update_status_at(&id, TaskStatus::Running, None, now);
            },
            EventKind::TaskStopped => {
                let was_canceled: bool = match &event.reason {
                    Some(r) => str_eq(r.as_str(), "canceled"),
                    None => false,
                };
                let status = if was_canceled {
                    TaskStatus::Canceled
                } else {
                    TaskStatus::Succeeded
                };
                self.update_status_at(&id, status, None, now);
            },
            EventKind::TaskFailed => {
                self.update_status_at(&id, TaskStatus::Failed, clone_opt(&event.reason), now);
            },
            EventKind::TimeoutHit => {
                self.update_status_at(
                    &id,
                    TaskStatus::Timeout,
                    Some(String::from_str("timeout")),
                    now,
                );
            },
            EventKind::ControllerRejected => {
                self.update_status_at(&id, TaskStatus::Failed, clone_opt(&event.reason), now);
            },
            EventKind::ActorExhausted => {
                self.update_status_at(&id, TaskStatus::Exhausted, None, now);
            },
            EventKind::ActorDead => {
                self.update_status_at(&id, TaskStatus::Failed, clone_opt(&event.reason), now);
            },
            EventKind::TaskRemoved => {
                self.remove_task(&id);
            },
            _ => {},
        }
    }

    /// Takes the event `event` in now.
    pub fn apply_event(&mut self, event: &Event, slot: &str)
        requires
            old(self).wf(),
        ensures
            final(self).wf(),
            exists|now: u64| final(self)@ == after_event(old(self)@, event@, slot@, now),
            final(self).seen() == seen_after(old(self).seen(), event@),
    {
        let now: u64 = unix_now();
        self.apply_event_at(event, slot, now);
    }

    /// The task identified by `id`.
    pub fn get(&self, id: &TaskId) -> (r: Option<TaskInfo>)
        requires
            self.wf(),
        ensures
            match r {
                Some(t) => found(self@, id@) == Some(t@),
                None => found(self@, id@) is None,
            },
    {
        match self.position(id) {
            Some(p) => {
                proof {
                    lemma_found_at(self@, p as int);
                }
                Some(self.tasks[p].clone())
            },
            None => {
                proof {
                    lemma_found_absent(self@, id@);
                }
                None
            },
        }
    }

    /// What canceling the task `id` calls for: an identifier that was
    /// never admitted is reported as not found, a task that is pending or
    /// running is to be signalled, and a task that has ended, or was
    /// removed, is left alone.
    pub fn cancel_task(&self, id: &TaskId) -> (r: Result<Cancel, ApiError>)
        requires
            self.wf(),
        ensures
            match r {
                Ok(c) => cancel_of(self@, self.seen(), id@) == Some(c),
                Err(e) => cancel_of(self@, self.seen(), id@) is None && e@
                    == ApiErrorView::TaskNotFound(id@),
            },
    {
        match self.position(id) {
            Some(p) => {
                proof {
                    lemma_found_at(self@, p as int);
                }
                if self.tasks[p].status.is_active() {
                    Ok(Cancel::Signal)
                } else {
                    Ok(Cancel::Nothing)
                }
            },
            None => {
                proof {
                    lemma_found_absent(self@, id@);
                }
                if self.was_seen(id) {
                    Ok(Cancel::Nothing)
                } else {
                    Err(ApiError::TaskNotFound(id.to_string()))
                }
            },
        }
    }

    /// Whether the task `id` was canceled: a submission that was canceled
    /// while it waited must not start.
    pub fn was_canceled(&self, id: &TaskId) -> (r: bool)
        requires
            self.wf(),
        ensures
            r == (found(self@, id@) matches Some(t) && t.status == TaskStatus::Canceled),
    {
        match self.position(id) {
            Some(p) => {
                proof {
                    lemma_found_at(self@, p as int);
                }
                self.tasks[p].status == TaskStatus::Canceled
            },
            None => {
                proof {
                    lemma_found_absent(self@, id@);
                }
                false
            },
        }
    }

    /// Copies of the tasks at the positions `pos[from..to]`.
    fn copies(&self, pos: &Vec<usize>, from: usize, to: usize) -> (r: Vec<TaskInfo>)
        requires
            from <= to <= pos@.len(),
            forall|j: int| 0 <= j < pos@.len() ==> (#[trigger] pos@[j]) < self@.len(),
        ensures
            info_views(r@) == at(self@, pos@).subrange(from as int, to as int),
    {
        let mut out: Vec<TaskInfo> = Vec::new();
        let mut j: usize = from;
        while j < to
            invariant
                from <= j <= to <= pos@.len(),
                self@.len() == self.tasks@.len(),
                forall|i: int| 0 <= i < pos@.len() ==> (#[trigger] pos@[i]) < self@.len(),
                out@.len() == j - from,
                forall|i: int|
                    0 <= i < out@.len() ==> (#[trigger] out@[i])@ == self@[pos@[from + i] as int],
            decreases to - j,
        {
            out.push(self.tasks[pos[j]].clone());
            j = j + 1;
        }
        assert(info_views(out@) =~= at(self@, pos@).subrange(from as int, to as int));
        out
    }

    /// The positions of all tasks.
    fn all_positions(&self) -> (r: Vec<usize>)
        ensures
            forall|j: int| 0 <= j < r@.len() ==> (#[trigger] r@[j]) < self@.len(),
            at(self@, r@) == self@,
    {
        let mut out: Vec<usize> = Vec::new();
        let mut i: usize = 0;
        while i < self.tasks.len()
            invariant
                i <= self.tasks@.len(),
                self@.len() == self.tasks@.len(),
                out@.len() == i,
                forall|j: int| 0 <= j < i ==> (#[trigger] out@[j]) == j,
            decreases self.tasks@.len() - i,
        {
            out.push(i);
            i = i + 1;
        }
        assert(at(self@, out@) =~= self@);
        out
    }

    /// The positions of the tasks of `slot`, read off the index.
    fn slot_positions(&self, slot: &str) -> (r: Vec<usize>)
        requires
            self.wf(),
        ensures
            forall|j: int| 0 <= j < r@.len() ==> (#[trigger] r@[j]) < self@.len(),
            at(self@, r@) == self@.filter(in_slot(slot@)),
    {
        let mut out: Vec<usize> = Vec::new();
        let ghost wanted = self@.filter(in_slot(slot@));
        match self.slot_position(slot) {
            None => {
                proof {
                    assert forall|i: int| 0 <= i < self@.len() implies !in_slot(slot@)(
                        #[trigger] self@[i],
                    ) by {
                        if self@[i].slot == slot@ {
                            assert(self.indexed(self@[i].slot));
                        }
                    }
                    lemma_filter_none(self@, in_slot(slot@));
                    assert(at(self@, out@) =~= wanted);
                }
                out
            },
            Some(k) => {
                let n: usize = self.by_slot[k].ids.len();
                assert(id_views(self.by_slot@[k as int].ids@) == ids_of(wanted));
                assert(n == wanted.len());
                let mut j: usize = 0;
                while j < n
                    invariant
                        self.wf(),
                        k < self.by_slot@.len(),
                        n == self.by_slot@[k as int].ids@.len(),
                        n == wanted.len(),
                        wanted == self@.filter(in_slot(slot@)),
                        id_views(self.by_slot@[k as int].ids@) == ids_of(wanted),
                        j <= n,
                        out@.len() == j,
                        forall|i: int| 0 <= i < j ==> (#[trigger] out@[i]) < self@.len(),
                        forall|i: int|
                            0 <= i < j ==> self@[(#[trigger] out@[i]) as int] == wanted[i],
                    decreases n - j,
                {
                    let id = &self.by_slot[k].ids[j];
                    proof {
                        let i = lemma_filter_members(self@, in_slot(slot@), j as int);
                        assert(id_views(self.by_slot@[k as int].ids@)[j as int] == ids_of(
                            wanted,
                        )[j as int]);
                        assert(self@[i].id == id@);
                    }
                    match self.position(id) {
                        Some(p) => {
                            proof {
                                let i = lemma_filter_members(self@, in_slot(slot@), j as int);
                                if i < p {
                                    assert(self@[i].id != self@[p as int].id);
                                } else if p < i {
                                    assert(self@[p as int].id != self@[i].id);
                                }
                                assert(i == p);
                            }
                            out.push(p);
                        },
                        None => {
                            proof {
                                let i = lemma_filter_members(self@, in_slot(slot@), j as int);
                                assert(false);
                            }
                        },
                    }
                    j = j + 1;
                }
                assert(at(self@, out@) =~= wanted);
                out
            },
        }
    }

    /// Of the positions `pos`, those of the tasks in `status`.
    fn with_status(&self, pos: Vec<usize>, status: TaskStatus) -> (r: Vec<usize>)
        requires
            forall|j: int| 0 <= j < pos@.len() ==> (#[trigger] pos@[j]) < self@.len(),
        ensures
            forall|j: int| 0 <= j < r@.len() ==> (#[trigger] r@[j]) < self@.len(),
            at(self@, r@) == at(self@, pos@).filter(in_status(status)),
    {
        let mut out: Vec<usize> = Vec::new();
        let mut j: usize = 0;
        proof {
            lemma_filter_empty(in_status(status));
            assert(at(self@, pos@).take(0) =~= Seq::<TaskInfoView>::empty());
            assert(at(self@, out@) =~= Seq::<TaskInfoView>::empty());
        }
        while j < pos.len()
            invariant
                j <= pos@.len(),
                self@.len() == self.tasks@.len(),
                forall|i: int| 0 <= i < pos@.len() ==> (#[trigger] pos@[i]) < self@.len(),
                forall|i: int| 0 <= i < out@.len() ==> (#[trigger] out@[i]) < self@.len(),
                at(self@, out@) == at(self@, pos@).take(j as int).filter(in_status(status)),
            decreases pos@.len() - j,
        {
            let p: usize = pos[j];
            let ghost seen = at(self@, pos@).take(j as int);
            let ghost kept = at(self@, out@);
            proof {
                lemma_filter_push(seen, self@[p as int], in_status(status));
                assert(at(self@, pos@).take(j + 1) =~= seen.push(self@[p as int]));
            }
            if self.tasks[p].status == status {
                out.push(p);
                assert(at(self@, out@) =~= kept.push(self@[p as int]));
            }
            j = j + 1;
        }
        assert(at(self@, pos@).take(j as int) =~= at(self@, pos@));
        out
    }

    /// The tasks of `slot`, in the order of admission.
    pub fn list_by_slot(&self, slot: &str) -> (r: Vec<TaskInfo>)
        requires
            self.wf(),
        ensures
            info_views(r@) == self@.filter(in_slot(slot@)),
    {
        let pos = self.slot_positions(slot);
        let r = self.copies(&pos, 0, pos.len());
        assert(at(self@, pos@).subrange(0, pos@.len() as int) =~= at(self@, pos@));
        r
    }

    /// All tasks, in the order of admission.
    pub fn list_all(&self) -> (r: Vec<TaskInfo>)
        ensures
            info_views(r@) == self@,
    {
        let pos = self.all_positions();
        let r = self.copies(&pos, 0, pos.len());
        assert(at(self@, pos@).subrange(0, pos@.len() as int) =~= at(self@, pos@));
        r
    }

    /// The tasks in `status`, in the order of admission.
    pub fn list_by_status(&self, status: TaskStatus) -> (r: Vec<TaskInfo>)
        ensures
            info_views(r@) == self@.filter(in_status(status)),
    {
        let pos = self.with_status(self.all_positions(), status);
        let r = self.copies(&pos, 0, pos.len());
        assert(at(self@, pos@).subrange(0, pos@.len() as int) =~= at(self@, pos@));
        r
    }

    /// One page of the tasks that `q` selects: `total` counts all of them,
    /// `items` holds those after the first `offset`, at most `limit` and
    /// never more than the largest page size.
    pub fn query(&self, q: &TaskQuery) -> (r: TaskPage<TaskInfo>)
        requires
            self.wf(),
        ensures
            r.total == self@.filter(selected_by(q@)).len(),
            info_views(r.items@) == page_of(self@.filter(selected_by(q@)), q.offset, q.limit),
    {
        let ghost wanted = self@.filter(selected_by(q@));
        let candidates = match &q.slot {
            Some(slot) => self.slot_positions(slot.as_str()),
            None => self.all_positions(),
        };
        let ghost by_slot = at(self@, candidates@);
        let pos = match q.status {
            Some(status) => self.with_status(candidates, status),
            None => candidates,
        };
        proof {
            match (q@.slot, q@.status) {
                (Some(slot), Some(status)) => {
                    lemma_filter_twice(self@, in_slot(slot), in_status(status), selected_by(q@));
                },
                (Some(slot), None) => {
                    assert(in_slot(slot) =~= selected_by(q@));
                },
                (None, Some(status)) => {
                    assert(in_status(status) =~= selected_by(q@));
                },
                (None, None) => {
                    lemma_filter_all(self@, selected_by(q@));
                },
            }
            assert(at(self@, pos@) == wanted);
        }
        let total: usize = pos.len();
        let size: usize = if q.limit <= MAX_LIMIT {
            q.limit
        } else {
            MAX_LIMIT
        };
        let from: usize = if q.offset <= total {
            q.offset
        } else {
            total
        };
        let to: usize = if size <= total - from {
            from + size
        } else {
            total
        };
        let items = self.copies(&pos, from, to);
        TaskPage { items, total }
    }
}

impl Default for TaskState {
    fn default() -> (r: Self)
        ensures
            r.wf(),
            r@ == Seq::<TaskInfoView>::empty(),
            r.seen() == Set::<Seq<char>>::empty(),
    {
        TaskState::new()
    }
}

} // verus!
