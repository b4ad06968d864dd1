//! What the task state holds and what its operations come to, over plain
//! sequences of snapshots.

use crate::event::{EventKind, EventView};
use crate::info::TaskInfoView;
use crate::query::{TaskQueryView, MAX_LIMIT};
use crate::status::TaskStatus;
use vstd::prelude::*;

verus! {

/// The tasks of `slot`.
pub open spec fn in_slot(slot: Seq<char>) -> spec_fn(TaskInfoView) -> bool {
    |t: TaskInfoView| t.slot == slot
}

/// The tasks in `status`.
pub open spec fn in_status(status: TaskStatus) -> spec_fn(TaskInfoView) -> bool {
    |t: TaskInfoView| t.status == status
}

/// Every task but the one identified by `id`.
pub open spec fn other_than(id: Seq<char>) -> spec_fn(TaskInfoView) -> bool {
    |t: TaskInfoView| t.id != id
}

/// Every identifier but `id`.
pub open spec fn not_id(id: Seq<char>) -> spec_fn(Seq<char>) -> bool {
    |x: Seq<char>| x != id
}

/// Whether the query `q` selects the task `t`: each filter that is set
/// must agree with the task.
pub open spec fn selects(q: TaskQueryView, t: TaskInfoView) -> bool {
    &&& q.slot is Some ==> t.slot == q.slot->0
    &&& q.status is Some ==> t.status == q.status->0
}

/// The tasks that the query `q` selects.
pub open spec fn selected_by(q: TaskQueryView) -> spec_fn(TaskInfoView) -> bool {
    |t: TaskInfoView| selects(q, t)
}

/// The identifiers of a list of tasks.
pub open spec fn ids_of(tasks: Seq<TaskInfoView>) -> Seq<Seq<char>> {
    tasks.map_values(|t: TaskInfoView| t.id)
}

/// No two tasks share an identifier.
pub open spec fn distinct_ids(tasks: Seq<TaskInfoView>) -> bool {
    forall|i: int, j: int| 0 <= i < j < tasks.len() ==> tasks[i].id != tasks[j].id
}

/// The task identified by `id`, if there is one.
pub open spec fn found(tasks: Seq<TaskInfoView>, id: Seq<char>) -> Option<TaskInfoView>
    decreases tasks.len(),
{
    if tasks.len() == 0 {
        None
    } else if tasks.last().id == id {
        Some(tasks.last())
    } else {
        found(tasks.drop_last(), id)
    }
}

/// A task as it is admitted at the time `now`: pending, not yet
/// attempted, without an error.
pub open spec fn admitted(id: Seq<char>, slot: Seq<char>, now: u64) -> TaskInfoView {
    TaskInfoView {
        id,
        slot,
        status: TaskStatus::Pending,
        attempt: 0,
        created_at: now,
        updated_at: now,
        error: None,
    }
}

/// The tasks after `id` was admitted to `slot`: the new task stands last,
/// in place of any task that had the identifier before.
pub open spec fn after_add(tasks: Seq<TaskInfoView>, id: Seq<char>, slot: Seq<char>, now: u64)
    -> Seq<TaskInfoView> {
    tasks.filter(other_than(id)).push(admitted(id, slot, now))
}

/// The task `t` moved to `status` at the time `now`. A canceled task has
/// no error, whatever was on record or is given; for every other status
/// an error replaces the one on record, and no error leaves it.
pub open spec fn moved(t: TaskInfoView, status: TaskStatus, error: Option<Seq<char>>, now: u64)
    -> TaskInfoView {
    TaskInfoView {
        status,
        updated_at: now,
        error: if status == TaskStatus::Canceled {
            None
        } else if error is Some {
            error
        } else {
            t.error
        },
        ..t
    }
}

/// The tasks after the status of `id` was updated.
pub open spec fn after_update(
    tasks: Seq<TaskInfoView>,
    id: Seq<char>,
    status: TaskStatus,
    error: Option<Seq<char>>,
    now: u64,
) -> Seq<TaskInfoView> {
    tasks.map_values(
        |t: TaskInfoView|
            if t.id == id {
                moved(t, status, error, now)
            } else {
                t
            },
    )
}

/// The task `t` with one more attempt, counted at the time `now`. The
/// counter stops at the largest number it can hold.
pub open spec fn attempted(t: TaskInfoView, now: u64) -> TaskInfoView {
    TaskInfoView {
        attempt: if t.attempt < u32::MAX {
            (t.attempt + 1) as u32
        } else {
            t.attempt
        },
        updated_at: now,
        ..t
    }
}

/// The tasks after an attempt of `id` was counted.
pub open spec fn after_attempt(tasks: Seq<TaskInfoView>, id: Seq<char>, now: u64) -> Seq<
    TaskInfoView,
> {
    tasks.map_values(
        |t: TaskInfoView|
            if t.id == id {
                attempted(t, now)
            } else {
                t
            },
    )
}

/// The tasks after `id` was removed.
pub open spec fn after_remove(tasks: Seq<TaskInfoView>, id: Seq<char>) -> Seq<TaskInfoView> {
    tasks.filter(other_than(id))
}

/// The page of `matches` that starts after `offset` tasks and holds at
/// most `limit` of them, and never more than the largest page size.
pub open spec fn page_of(matches: Seq<TaskInfoView>, offset: usize, limit: usize) -> Seq<
    TaskInfoView,
> {
    let size = if limit <= MAX_LIMIT {
        limit as int
    } else {
        MAX_LIMIT as int
    };
    let from = if offset <= matches.len() {
        offset as int
    } else {
        matches.len() as int
    };
    let to = if from + size <= matches.len() {
        from + size
    } else {
        matches.len() as int
    };
    matches.subrange(from, to)
}

/// Filtering a list with one more element: the element is kept or not.
pub proof fn lemma_filter_push<A>(s: Seq<A>, x: A, p: spec_fn(A) -> bool)
    ensures
        s.push(x).filter(p) == if p(x) {
            s.filter(p).push(x)
        } else {
            s.filter(p)
        },
{
    reveal(Seq::filter);
    assert(s.push(x).drop_last() == s);
}

/// Filtering the empty list leaves it empty.
pub proof fn lemma_filter_empty<A>(p: spec_fn(A) -> bool)
    ensures
        Seq::<A>::empty().filter(p) == Seq::<A>::empty(),
{
    reveal(Seq::filter);
}

/// A filter that every element passes changes nothing.
pub proof fn lemma_filter_all<A>(s: Seq<A>, p: spec_fn(A) -> bool)
    requires
        forall|i: int| 0 <= i < s.len() ==> p(#[trigger] s[i]),
    ensures
        s.filter(p) == s,
    decreases s.len(),
{
    reveal(Seq::filter);
    if s.len() > 0 {
        lemma_filter_all(s.drop_last(), p);
        assert(s.drop_last().push(s.last()) == s);
    }
}

/// A filter that no element passes leaves nothing.
pub proof fn lemma_filter_none<A>(s: Seq<A>, p: spec_fn(A) -> bool)
    requires
        forall|i: int| 0 <= i < s.len() ==> !p(#[trigger] s[i]),
    ensures
        s.filter(p) == Seq::<A>::empty(),
    decreases s.len(),
{
    reveal(Seq::filter);
    if s.len() > 0 {
        lemma_filter_none(s.drop_last(), p);
    }
}

/// Two filters in a row keep what passes both.
pub proof fn lemma_filter_twice<A>(
    s: Seq<A>,
    p: spec_fn(A) -> bool,
    q: spec_fn(A) -> bool,
    both: spec_fn(A) -> bool,
)
    requires
        forall|x: A| #[trigger] both(x) == (p(x) && q(x)),
    ensures
        s.filter(p).filter(q) == s.filter(both),
    decreases s.len(),
{
    reveal(Seq::filter);
    if s.len() == 0 {
    } else {
        lemma_filter_twice(s.drop_last(), p, q, both);
        if p(s.last()) {
            lemma_filter_push(s.drop_last().filter(p), s.last(), q);
        }
    }
}

/// What passes a filter is an element of the list and passes the test,
/// and the elements keep their order.
pub proof fn lemma_filter_members<A>(s: Seq<A>, p: spec_fn(A) -> bool, k: int) -> (i: int)
    requires
        0 <= k < s.filter(p).len(),
    ensures
        0 <= i < s.len(),
        s[i] == s.filter(p)[k],
        p(s[i]),
        s.take(i).filter(p).len() == k,
    decreases s.len(),
{
    reveal(Seq::filter);
    let rest = s.drop_last();
    if p(s.last()) && k == rest.filter(p).len() {
        assert(s.take(s.len() - 1) == rest);
        s.len() - 1
    } else {
        let i = lemma_filter_members(rest, p, k);
        assert(rest.take(i) == s.take(i));
        i
    }
}

/// Taking one task out of a list without repeated identifiers is removing
/// its identifier.
pub proof fn lemma_remove_is_filter(tasks: Seq<TaskInfoView>, p: int)
    requires
        distinct_ids(tasks),
        0 <= p < tasks.len(),
    ensures
        tasks.remove(p) == after_remove(tasks, tasks[p].id),
    decreases tasks.len(),
{
    reveal(Seq::filter);
    let id = tasks[p].id;
    let rest = tasks.drop_last();
    if p == tasks.len() - 1 {
        assert(tasks.remove(p) == rest);
        assert forall|i: int| 0 <= i < rest.len() implies other_than(id)(#[trigger] rest[i]) by {
            assert(tasks[i].id != tasks[p].id);
        }
        lemma_filter_all(rest, other_than(id));
    } else {
        lemma_remove_is_filter(rest, p);
        assert(rest[p] == tasks[p]);
        assert(tasks[p].id != tasks[tasks.len() - 1].id);
        assert(tasks.remove(p) == rest.remove(p).push(tasks.last()));
    }
}

/// Removing an identifier that no task has changes nothing.
pub proof fn lemma_remove_absent(tasks: Seq<TaskInfoView>, id: Seq<char>)
    requires
        forall|i: int| 0 <= i < tasks.len() ==> (#[trigger] tasks[i]).id != id,
    ensures
        after_remove(tasks, id) == tasks,
{
    lemma_filter_all(tasks, other_than(id));
}

/// Filtering keeps identifiers distinct.
pub proof fn lemma_filter_distinct(tasks: Seq<TaskInfoView>, p: spec_fn(TaskInfoView) -> bool)
    requires
        distinct_ids(tasks),
    ensures
        distinct_ids(tasks.filter(p)),
{
    let f = tasks.filter(p);
    assert forall|a: int, b: int| 0 <= a < b < f.len() implies f[a].id != f[b].id by {
        let i = lemma_filter_members(tasks, p, a);
        let j = lemma_filter_members(tasks, p, b);
        if i == j {
            assert(false);
        }
        if i < j {
            assert(tasks[i].id != tasks[j].id);
        } else {
            assert(tasks[j].id != tasks[i].id);
        }
    }
}

/// In a list without repeated identifiers, the task found under an
/// identifier is the one that has it.
pub proof fn lemma_found_at(tasks: Seq<TaskInfoView>, p: int)
    requires
        distinct_ids(tasks),
        0 <= p < tasks.len(),
    ensures
        found(tasks, tasks[p].id) == Some(tasks[p]),
    decreases tasks.len(),
{
    if p < tasks.len() - 1 {
        assert(tasks[p].id != tasks[tasks.len() - 1].id);
        lemma_found_at(tasks.drop_last(), p);
    }
}

/// Nothing is found under an identifier that no task has.
pub proof fn lemma_found_absent(tasks: Seq<TaskInfoView>, id: Seq<char>)
    requires
        forall|i: int| 0 <= i < tasks.len() ==> (#[trigger] tasks[i]).id != id,
    ensures
        found(tasks, id) is None,
    decreases tasks.len(),
{
    if tasks.len() > 0 {
        assert(tasks[tasks.len() - 1].id != id);
        lemma_found_absent(tasks.drop_last(), id);
    }
}

/// Changing tasks without touching their slots and identifiers leaves the
/// identifiers of every slot as they were.
pub proof fn lemma_same_slot_ids(a: Seq<TaskInfoView>, b: Seq<TaskInfoView>, slot: Seq<char>)
    requires
        a.len() == b.len(),
        forall|i: int| 0 <= i < a.len() ==> a[i].id == b[i].id && a[i].slot == b[i].slot,
    ensures
        ids_of(a.filter(in_slot(slot))) == ids_of(b.filter(in_slot(slot))),
    decreases a.len(),
{
    reveal(Seq::filter);
    if a.len() > 0 {
        lemma_same_slot_ids(a.drop_last(), b.drop_last(), slot);
        assert(a.last().slot == b.last().slot);
        assert(a.last().id == b.last().id);
        if in_slot(slot)(a.last()) {
            assert(ids_of(a.drop_last().filter(in_slot(slot)).push(a.last())) == ids_of(
                a.drop_last().filter(in_slot(slot)),
            ).push(a.last().id));
            assert(ids_of(b.drop_last().filter(in_slot(slot)).push(b.last())) == ids_of(
                b.drop_last().filter(in_slot(slot)),
            ).push(b.last().id));
        }
    }
}

/// The identifiers of a slot after a task was removed: those of before,
/// without the identifier of the task.
pub proof fn lemma_slot_ids_after_remove(tasks: Seq<TaskInfoView>, id: Seq<char>, slot: Seq<char>)
    ensures
        ids_of(after_remove(tasks, id).filter(in_slot(slot))) == ids_of(
            tasks.filter(in_slot(slot)),
        ).filter(not_id(id)),
    decreases tasks.len(),
{
    reveal(Seq::filter);
    let keep = not_id(id);
    if tasks.len() == 0 {
        lemma_filter_empty(in_slot(slot));
        lemma_filter_empty(keep);
        assert(ids_of(Seq::<TaskInfoView>::empty()) == Seq::<Seq<char>>::empty());
    } else {
        let rest = tasks.drop_last();
        let t = tasks.last();
        lemma_slot_ids_after_remove(rest, id, slot);
        if other_than(id)(t) {
            lemma_filter_push(rest.filter(other_than(id)), t, in_slot(slot));
        }
        if in_slot(slot)(t) {
            let inner = rest.filter(in_slot(slot));
            assert(ids_of(inner.push(t)) == ids_of(inner).push(t.id));
            lemma_filter_push(ids_of(inner), t.id, keep);
            if other_than(id)(t) {
                let left = rest.filter(other_than(id)).filter(in_slot(slot));
                assert(ids_of(left.push(t)) == ids_of(left).push(t.id));
            }
        }
    }
}

/// Looking a task up after one more was added.
pub proof fn lemma_found_push(tasks: Seq<TaskInfoView>, t: TaskInfoView, id: Seq<char>)
    ensures
        found(tasks.push(t), id) == if t.id == id {
            Some(t)
        } else {
            found(tasks, id)
        },
{
    assert(tasks.push(t).drop_last() == tasks);
}

/// Looking a task up after an identifier was removed.
pub proof fn lemma_found_after_remove(tasks: Seq<TaskInfoView>, gone: Seq<char>, id: Seq<char>)
    ensures
        found(after_remove(tasks, gone), id) == if id == gone {
            None
        } else {
            found(tasks, id)
        },
    decreases tasks.len(),
{
    reveal(Seq::filter);
    if tasks.len() > 0 {
        lemma_found_after_remove(tasks.drop_last(), gone, id);
        if other_than(gone)(tasks.last()) {
            lemma_found_push(tasks.drop_last().filter(other_than(gone)), tasks.last(), id);
        }
    }
}

/// Looking a task up after every task was changed by `f`, which leaves
/// identifiers alone.
pub proof fn lemma_found_changed(
    tasks: Seq<TaskInfoView>,
    f: spec_fn(TaskInfoView) -> TaskInfoView,
    id: Seq<char>,
)
    requires
        forall|t: TaskInfoView| (#[trigger] f(t)).id == t.id,
    ensures
        found(tasks.map_values(f), id) == match found(tasks, id) {
            Some(t) => Some(f(t)),
            None => None,
        },
    decreases tasks.len(),
{
    if tasks.len() > 0 {
        assert(tasks.map_values(f).drop_last() == tasks.drop_last().map_values(f));
        lemma_found_changed(tasks.drop_last(), f, id);
    }
}

/// The attempts of the task `id`, zero where it is not known.
pub open spec fn attempts(tasks: Seq<TaskInfoView>, id: Seq<char>) -> u32 {
    match found(tasks, id) {
        Some(t) => t.attempt,
        None => 0,
    }
}

/// Updating a status changes no attempt counter, and makes no task
/// appear or disappear.
pub proof fn lemma_update_keeps_attempts(
    tasks: Seq<TaskInfoView>,
    id: Seq<char>,
    status: TaskStatus,
    error: Option<Seq<char>>,
    now: u64,
    any: Seq<char>,
)
    ensures
        found(after_update(tasks, id, status, error, now), any) is Some <==> found(tasks, any)
            is Some,
        attempts(after_update(tasks, id, status, error, now), any) == attempts(tasks, any),
{
    let f = |t: TaskInfoView|
        if t.id == id {
            moved(t, status, error, now)
        } else {
            t
        };
    lemma_found_changed(tasks, f, any);
}

/// Counting an attempt lowers no attempt counter: that of the task goes
/// up by one, unless it is at its largest, and every other stays.
pub proof fn lemma_attempt_counts_up(
    tasks: Seq<TaskInfoView>,
    id: Seq<char>,
    now: u64,
    any: Seq<char>,
)
    ensures
        found(after_attempt(tasks, id, now), any) is Some <==> found(tasks, any) is Some,
        attempts(after_attempt(tasks, id, now), any) >= attempts(tasks, any),
        any != id ==> attempts(after_attempt(tasks, id, now), any) == attempts(tasks, any),
        found(tasks, id) is Some && attempts(tasks, id) < u32::MAX ==> attempts(
            after_attempt(tasks, id, now),
            id,
        ) == attempts(tasks, id) + 1,
{
    let f = |t: TaskInfoView|
        if t.id == id {
            attempted(t, now)
        } else {
            t
        };
    lemma_found_changed(tasks, f, any);
    lemma_found_changed(tasks, f, id);
    lemma_found_id(tasks, any);
    lemma_found_id(tasks, id);
}

/// What is found under an identifier has that identifier.
pub proof fn lemma_found_id(tasks: Seq<TaskInfoView>, id: Seq<char>)
    ensures
        found(tasks, id) matches Some(t) ==> t.id == id,
    decreases tasks.len(),
{
    if tasks.len() > 0 {
        lemma_found_id(tasks.drop_last(), id);
    }
}

/// Removing a task leaves every other task as it was.
pub proof fn lemma_remove_keeps_others(tasks: Seq<TaskInfoView>, id: Seq<char>, any: Seq<char>)
    requires
        any != id,
    ensures
        found(after_remove(tasks, id), any) == found(tasks, any),
        found(after_remove(tasks, id), id) is None,
{
    lemma_found_after_remove(tasks, id, any);
    lemma_found_after_remove(tasks, id, id);
}

/// Admitting a task leaves every other task as it was, and the admitted
/// task starts without attempts.
pub proof fn lemma_add_keeps_others(
    tasks: Seq<TaskInfoView>,
    id: Seq<char>,
    slot: Seq<char>,
    now: u64,
    any: Seq<char>,
)
    ensures
        any != id ==> found(after_add(tasks, id, slot, now), any) == found(tasks, any),
        found(after_add(tasks, id, slot, now), id) == Some(admitted(id, slot, now)),
{
    lemma_found_push(after_remove(tasks, id), admitted(id, slot, now), any);
    lemma_found_push(after_remove(tasks, id), admitted(id, slot, now), id);
    lemma_found_after_remove(tasks, id, any);
}

/// The total of a query is the length of the listing with the same
/// filter: all tasks where no filter is set, the tasks of the slot or in
/// the status where one is, and the tasks of the slot that are in the
/// status where both are.
pub proof fn lemma_query_total(tasks: Seq<TaskInfoView>, q: TaskQueryView)
    ensures
        q.slot is None && q.status is None ==> tasks.filter(selected_by(q)) == tasks,
        q.slot is Some && q.status is None ==> tasks.filter(selected_by(q)) == tasks.filter(
            in_slot(q.slot->0),
        ),
        q.slot is None && q.status is Some ==> tasks.filter(selected_by(q)) == tasks.filter(
            in_status(q.status->0),
        ),
        q.slot is Some && q.status is Some ==> tasks.filter(selected_by(q)) == tasks.filter(
            in_slot(q.slot->0),
        ).filter(in_status(q.status->0)) && tasks.filter(selected_by(q)) == tasks.filter(
            in_status(q.status->0),
        ).filter(in_slot(q.slot->0)),
{
    if q.slot is None && q.status is None {
        lemma_filter_all(tasks, selected_by(q));
    }
    if q.slot is Some && q.status is None {
        assert(in_slot(q.slot->0) =~= selected_by(q));
    }
    if q.slot is None && q.status is Some {
        assert(in_status(q.status->0) =~= selected_by(q));
    }
    if q.slot is Some && q.status is Some {
        lemma_filter_twice(tasks, in_slot(q.slot->0), in_status(q.status->0), selected_by(q));
        lemma_filter_twice(tasks, in_status(q.status->0), in_slot(q.slot->0), selected_by(q));
    }
}

/// A page is a run of the matches: it starts at the offset, is never
/// longer than the limit or the largest page size, and is empty from an
/// offset at or beyond the total on.
pub proof fn lemma_page(matches: Seq<TaskInfoView>, offset: usize, limit: usize)
    ensures
        page_of(matches, offset, limit).len() <= limit,
        page_of(matches, offset, limit).len() <= MAX_LIMIT,
        page_of(matches, offset, limit).len() <= matches.len(),
        offset >= matches.len() ==> page_of(matches, offset, limit).len() == 0,
        offset + limit <= matches.len() && limit <= MAX_LIMIT ==> page_of(
            matches,
            offset,
            limit,
        ).len() == limit,
        forall|i: int|
            0 <= i < page_of(matches, offset, limit).len() ==> #[trigger] page_of(
                matches,
                offset,
                limit,
            )[i] == matches[offset + i],
{
}

/// The reason with which a stopped attempt reports that it was canceled.
pub open spec fn canceled_reason() -> Seq<char> {
    "canceled"@
}

/// The error on record for a task that ran into its timeout.
pub open spec fn timeout_error() -> Seq<char> {
    "timeout"@
}

/// The tasks after the event `e` was taken in at the time `now`, `slot`
/// being the slot that the task of the event was submitted to. The task
/// name of the event is the identifier of the task.
///
/// An added task is admitted as pending. A starting attempt is counted
/// and the task runs. A stopped attempt has succeeded, unless its reason
/// says that it was canceled; a canceled task has no error. A failed
/// attempt, a refusal by the
/// controller and a dead actor leave the task failed, with the reason as
/// its error; a timeout leaves it timed out, an exhausted actor
/// exhausted. A removed task is forgotten. An event without a task name,
/// and every other kind of event, changes nothing.
pub open spec fn after_event(tasks: Seq<TaskInfoView>, e: EventView, slot: Seq<char>, now: u64)
    -> Seq<TaskInfoView> {
    match e.task {
        None => tasks,
        Some(id) => match e.kind {
            EventKind::TaskAdded => after_add(tasks, id, slot, now),
            EventKind::TaskStarting => after_update(
                after_attempt(tasks, id, now),
                id,
                TaskStatus::Running,
                None,
                now,
            ),
            EventKind::TaskStopped => after_update(
                tasks,
                id,
                if e.reason == Some(canceled_reason()) {
                    TaskStatus::Canceled
                } else {
                    TaskStatus::Succeeded
                },
                None,
                now,
            ),
            EventKind::TaskFailed => after_update(tasks, id, TaskStatus::Failed, e.reason, now),
            EventKind::TimeoutHit => after_update(
                tasks,
                id,
                TaskStatus::Timeout,
                Some(timeout_error()),
                now,
            ),
            EventKind::ControllerRejected => after_update(
                tasks,
                id,
                TaskStatus::Failed,
                e.reason,
                now,
            ),
            EventKind::ActorExhausted => after_update(tasks, id, TaskStatus::Exhausted, None, now),
            EventKind::ActorDead => after_update(tasks, id, TaskStatus::Failed, e.reason, now),
            EventKind::TaskRemoved => after_remove(tasks, id),
            _ => tasks,
        },
    }
}

/// Taking an event in lowers the attempt counter of no task that was
/// known before and is known after, unless the event admits the task
/// anew.
pub proof fn lemma_event_keeps_attempts(
    tasks: Seq<TaskInfoView>,
    e: EventView,
    slot: Seq<char>,
    now: u64,
    any: Seq<char>,
)
    requires
        !(e.kind == EventKind::TaskAdded && e.task == Some(any)),
        found(after_event(tasks, e, slot, now), any) is Some,
    ensures
        found(tasks, any) is Some,
        attempts(after_event(tasks, e, slot, now), any) >= attempts(tasks, any),
{
    match e.task {
        None => {},
        Some(id) => {
            match e.kind {
                EventKind::TaskAdded => {
                    lemma_add_keeps_others(tasks, id, slot, now, any);
                },
                EventKind::TaskStarting => {
                    let mid = after_attempt(tasks, id, now);
                    lemma_attempt_counts_up(tasks, id, now, any);
                    lemma_update_keeps_attempts(mid, id, TaskStatus::Running, None, now, any);
                },
                EventKind::TaskStopped => {
                    lemma_update_keeps_attempts(tasks, id, TaskStatus::Canceled, None, now, any);
                    lemma_update_keeps_attempts(tasks, id, TaskStatus::Succeeded, None, now, any);
                },
                EventKind::TaskFailed => {
                    lemma_update_keeps_attempts(tasks, id, TaskStatus::Failed, e.reason, now, any);
                },
                EventKind::TimeoutHit => {
                    lemma_update_keeps_attempts(
                        tasks,
                        id,
                        TaskStatus::Timeout,
                        Some(timeout_error()),
                        now,
                        any,
                    );
                },
                EventKind::ControllerRejected => {
                    lemma_update_keeps_attempts(tasks, id, TaskStatus::Failed, e.reason, now, any);
                },
                EventKind::ActorExhausted => {
                    lemma_update_keeps_attempts(tasks, id, TaskStatus::Exhausted, None, now, any);
                },
                EventKind::ActorDead => {
                    lemma_update_keeps_attempts(tasks, id, TaskStatus::Failed, e.reason, now, any);
                },
                EventKind::TaskRemoved => {
                    lemma_found_after_remove(tasks, id, any);
                },
                _ => {},
            }
        },
    }
}

/// What canceling a task calls for.
#[derive(Clone, Copy, Debug, PartialEq, Eq, Structural)]
pub enum Cancel {
    /// The task is pending or running: its actor is signalled, and a
    /// queued entry dropped.
    Signal,
    /// The task has ended: there is nothing to do.
    Nothing,
}

/// What canceling `id` comes to, `seen` being the identifiers that were
/// ever admitted: a task that is pending or running is signalled; a task
/// that has ended, or was removed since, is left alone; nothing is known
/// of an identifier that was never seen.
pub open spec fn cancel_of(tasks: Seq<TaskInfoView>, seen: Set<Seq<char>>, id: Seq<char>)
    -> Option<Cancel> {
    match found(tasks, id) {
        Some(t) => Some(
            if t.status.active() {
                Cancel::Signal
            } else {
                Cancel::Nothing
            },
        ),
        None => if seen.contains(id) {
            Some(Cancel::Nothing)
        } else {
            None
        },
    }
}

/// The identifiers ever admitted, after the event `e` was taken in.
pub open spec fn seen_after(seen: Set<Seq<char>>, e: EventView) -> Set<Seq<char>> {
    if e.kind == EventKind::TaskAdded && e.task is Some {
        seen.insert(e.task->0)
    } else {
        seen
    }
}

/// Canceling is idempotent. A cancellation of a task that was ever
/// admitted succeeds. Once the stop of a canceled task has been taken in,
/// every further cancellation of it calls for nothing, so that it causes
/// no further event.
pub proof fn lemma_cancel_idempotent(
    tasks: Seq<TaskInfoView>,
    seen: Set<Seq<char>>,
    id: Seq<char>,
    slot: Seq<char>,
    now: u64,
)
    requires
        seen.contains(id),
    ensures
        cancel_of(tasks, seen, id) is Some,
        cancel_of(
            after_event(tasks, stopped_by_cancel(id), slot, now),
            seen_after(seen, stopped_by_cancel(id)),
            id,
        ) == Some(Cancel::Nothing),
{
    let f = |t: TaskInfoView|
        if t.id == id {
            moved(t, TaskStatus::Canceled, None, now)
        } else {
            t
        };
    lemma_found_changed(tasks, f, id);
    lemma_found_id(tasks, id);
}

/// The event with which the task `id` reports that it stopped because it
/// was canceled.
pub open spec fn stopped_by_cancel(id: Seq<char>) -> EventView {
    EventView {
        kind: EventKind::TaskStopped,
        task: Some(id),
        reason: Some(canceled_reason()),
        attempt: None,
        delay_ms: None,
        timeout_ms: None,
    }
}

/// A task that has ended is left alone, and so is one that was removed:
/// canceling calls for a signal only while the task is pending or
/// running.
pub proof fn lemma_cancel_after_end(tasks: Seq<TaskInfoView>, seen: Set<Seq<char>>, id: Seq<char>)
    requires
        seen.contains(id),
        found(tasks, id) matches Some(t) ==> !t.status.active(),
    ensures
        cancel_of(tasks, seen, id) == Some(Cancel::Nothing),
{
}

/// No identifier is ever forgotten: taking an event in removes none from
/// those that were seen.
pub proof fn lemma_seen_grows(seen: Set<Seq<char>>, e: EventView, id: Seq<char>)
    requires
        seen.contains(id),
    ensures
        seen_after(seen, e).contains(id),
{
}

/// No slot has two running tasks.
pub open spec fn one_runner_per_slot(tasks: Seq<TaskInfoView>) -> bool {
    forall|i: int, j: int|
        0 <= i < tasks.len() && 0 <= j < tasks.len() && i != j && tasks[i].slot == tasks[j].slot
            && tasks[i].status == TaskStatus::Running ==> tasks[j].status != TaskStatus::Running
}

/// Whether the event `e` keeps the discipline of the controller: an
/// attempt starts only in a slot where no other task runs.
pub open spec fn in_turn(tasks: Seq<TaskInfoView>, e: EventView) -> bool {
    e.kind == EventKind::TaskStarting && e.task is Some ==> forall|j: int|
        0 <= j < tasks.len() && (#[trigger] tasks[j]).id != e.task->0 && found(tasks, e.task->0)
            is Some && tasks[j].slot == found(tasks, e.task->0)->0.slot ==> tasks[j].status
            != TaskStatus::Running
}

/// The state never shows two running tasks in one slot, as long as the
/// events it takes in keep the discipline of the controller.
pub proof fn lemma_one_runner_per_slot(
    tasks: Seq<TaskInfoView>,
    e: EventView,
    slot: Seq<char>,
    now: u64,
)
    requires
        distinct_ids(tasks),
        one_runner_per_slot(tasks),
        in_turn(tasks, e),
    ensures
        one_runner_per_slot(after_event(tasks, e, slot, now)),
{
    let after = after_event(tasks, e, slot, now);
    match e.task {
        None => {},
        Some(id) => {
            match e.kind {
                EventKind::TaskAdded => {
                    let kept = tasks.filter(other_than(id));
                    assert forall|i: int, j: int|
                        0 <= i < after.len() && 0 <= j < after.len() && i != j && after[i].slot
                            == after[j].slot && after[i].status
                            == TaskStatus::Running implies after[j].status
                        != TaskStatus::Running by {
                        if j < kept.len() {
                            let i0 = lemma_filter_members(tasks, other_than(id), i);
                            let j0 = lemma_filter_members(tasks, other_than(id), j);
                            if i0 == j0 {
                                lemma_filter_distinct(tasks, other_than(id));
                                assert(kept[i].id == kept[j].id);
                                if i < j {
                                    assert(kept[i].id != kept[j].id);
                                } else {
                                    assert(kept[j].id != kept[i].id);
                                }
                            }
                        }
                    }
                },
                EventKind::TaskRemoved => {
                    let kept = tasks.filter(other_than(id));
                    assert forall|i: int, j: int|
                        0 <= i < after.len() && 0 <= j < after.len() && i != j && after[i].slot
                            == after[j].slot && after[i].status
                            == TaskStatus::Running implies after[j].status
                        != TaskStatus::Running by {
                        let i0 = lemma_filter_members(tasks, other_than(id), i);
                        let j0 = lemma_filter_members(tasks, other_than(id), j);
                        if i0 == j0 {
                            lemma_filter_distinct(tasks, other_than(id));
                            if i < j {
                                assert(kept[i].id != kept[j].id);
                            } else {
                                assert(kept[j].id != kept[i].id);
                            }
                        }
                    }
                },
                EventKind::TaskStarting => {
                    let mid = after_attempt(tasks, id, now);
                    assert forall|i: int, j: int|
                        0 <= i < after.len() && 0 <= j < after.len() && i != j && after[i].slot
                            == after[j].slot && after[i].status
                            == TaskStatus::Running implies after[j].status
                        != TaskStatus::Running by {
                        assert(mid[i].slot == tasks[i].slot && mid[j].slot == tasks[j].slot);
                        if tasks[i].id == id && tasks[j].id == id {
                            if i < j {
                                assert(tasks[i].id != tasks[j].id);
                            } else {
                                assert(tasks[j].id != tasks[i].id);
                            }
                        } else if tasks[i].id == id {
                            lemma_found_at(tasks, i);
                            assert(tasks[j].status != TaskStatus::Running);
                        } else if tasks[j].id == id {
                            lemma_found_at(tasks, j);
                            assert(tasks[i].status != TaskStatus::Running);
                        }
                    }
                },
                _ => {
                    assert forall|i: int, j: int|
                        0 <= i < after.len() && 0 <= j < after.len() && i != j && after[i].slot
                            == after[j].slot && after[i].status
                            == TaskStatus::Running implies after[j].status
                        != TaskStatus::Running by {
                        assert(after[i].slot == tasks[i].slot && after[j].slot == tasks[j].slot);
                        if after[j].status == TaskStatus::Running {
                            assert(tasks[i].status == TaskStatus::Running);
                            assert(tasks[j].status == TaskStatus::Running);
                        }
                    }
                },
            }
        },
    }
}

/// The kinds of event with which an attempt or an actor ends.
pub open spec fn ends_task(kind: EventKind) -> bool {
    kind == EventKind::TaskStopped || kind == EventKind::TaskFailed || kind
        == EventKind::TimeoutHit || kind == EventKind::ControllerRejected || kind
        == EventKind::ActorExhausted || kind == EventKind::ActorDead
}

/// An event that ends a task leaves it in a terminal status, and only the
/// start of an attempt makes a task run.
pub proof fn lemma_status_after_event(
    tasks: Seq<TaskInfoView>,
    e: EventView,
    slot: Seq<char>,
    now: u64,
)
    requires
        e.task is Some,
        found(tasks, e.task->0) is Some,
    ensures
        ends_task(e.kind) ==> found(after_event(tasks, e, slot, now), e.task->0) is Some
            && !found(after_event(tasks, e, slot, now), e.task->0)->0.status.active(),
        found(after_event(tasks, e, slot, now), e.task->0) matches Some(t) && t.status
            == TaskStatus::Running ==> e.kind == EventKind::TaskStarting || found(
            tasks,
            e.task->0,
        )->0.status == TaskStatus::Running,
{
    let id = e.task->0;
    lemma_found_id(tasks, id);
    let to = |status: TaskStatus, error: Option<Seq<char>>|
        |t: TaskInfoView|
            if t.id == id {
                moved(t, status, error, now)
            } else {
                t
            };
    lemma_found_changed(tasks, to(TaskStatus::Succeeded, None), id);
    lemma_found_changed(tasks, to(TaskStatus::Canceled, None), id);
    lemma_found_changed(tasks, to(TaskStatus::Failed, e.reason), id);
    lemma_found_changed(tasks, to(TaskStatus::Timeout, Some(timeout_error())), id);
    lemma_found_changed(tasks, to(TaskStatus::Exhausted, None), id);
    let counted = |t: TaskInfoView|
        if t.id == id {
            attempted(t, now)
        } else {
            t
        };
    lemma_found_changed(tasks, counted, id);
    lemma_found_changed(after_attempt(tasks, id, now), to(TaskStatus::Running, None), id);
    lemma_found_after_remove(tasks, id, id);
    lemma_add_keeps_others(tasks, id, slot, now, id);
}

} // verus!
