//! The ledger of submissions. The runtime names a task by its slot, so an
//! event says which slot it is about and not which submission. The ledger
//! keeps, for every submission, when its first attempt started, and tells
//! from the slot and the sequence number of an event which submission
//! the event is about.

use crate::event::EventKind;
use crate::listing::{lemma_filter_empty, lemma_filter_push};
use crate::task_id::TaskId;
use crate::text::str_eq;
use vstd::prelude::*;
use vstd::string::StringExecFns;

verus! {

/// One submission: where it went, who it is, and the sequence number at
/// which its first attempt started, once one has.
struct Entry {
    slot: String,
    id: TaskId,
    started: Option<u64>,
}

/// What the ledger holds of one submission, as plain values.
pub struct EntryView {
    pub slot: Seq<char>,
    pub id: Seq<char>,
    pub started: Option<u64>,
}

impl View for Entry {
    type V = EntryView;

    closed spec fn view(&self) -> EntryView {
        EntryView { slot: self.slot@, id: self.id@, started: self.started }
    }
}

/// The submissions, in the order in which they were made.
pub struct Ledger {
    entries: Vec<Entry>,
}

impl View for Ledger {
    type V = Seq<EntryView>;

    closed spec fn view(&self) -> Seq<EntryView> {
        self.entries@.map_values(|e: Entry| e@)
    }
}

/// Whether the submission `e` had begun to run in `slot` when the
/// sequence stood at `seq`: its first attempt started there, and not
/// later.
pub open spec fn started_by(e: EntryView, slot: Seq<char>, seq: u64) -> bool {
    e.slot == slot && e.started is Some && e.started->0 <= seq
}

/// The start of an attempt: its sequence number and the submission that
/// made it.
pub struct Start {
    pub mark: u64,
    pub id: Seq<char>,
}

/// The latest start in `slot` up to `seq`; of two starts with one number
/// the later submission counts.
pub open spec fn latest_start(entries: Seq<EntryView>, slot: Seq<char>, seq: u64) -> Option<Start>
    decreases entries.len(),
{
    if entries.len() == 0 {
        None
    } else {
        let rest = latest_start(entries.drop_last(), slot, seq);
        let e = entries.last();
        if started_by(e, slot, seq) && (rest is None || rest->0.mark <= e.started->0) {
            Some(Start { mark: e.started->0, id: e.id })
        } else {
            rest
        }
    }
}

/// The submission whose attempt ran in `slot` when the sequence stood at
/// `seq`.
pub open spec fn running_at(entries: Seq<EntryView>, slot: Seq<char>, seq: u64) -> Option<
    Seq<char>,
> {
    match latest_start(entries, slot, seq) {
        Some(found) => Some(found.id),
        None => None,
    }
}

/// The latest submission to `slot` of which no attempt has started.
pub open spec fn waiting(entries: Seq<EntryView>, slot: Seq<char>) -> Option<Seq<char>>
    decreases entries.len(),
{
    if entries.len() == 0 {
        None
    } else if entries.last().slot == slot && entries.last().started is None {
        Some(entries.last().id)
    } else {
        waiting(entries.drop_last(), slot)
    }
}

/// What the latest start is: the start of a submission to the slot, not
/// after `seq`, than which no other such start is later.
pub proof fn lemma_latest_start(entries: Seq<EntryView>, slot: Seq<char>, seq: u64)
    ensures
        match latest_start(entries, slot, seq) {
            Some(found) => {
                &&& exists|i: int|
                    0 <= i < entries.len() && started_by(#[trigger] entries[i], slot, seq)
                        && entries[i].started == Some(found.mark) && entries[i].id == found.id
                &&& forall|j: int|
                    0 <= j < entries.len() && started_by(#[trigger] entries[j], slot, seq)
                        ==> entries[j].started->0 <= found.mark
            },
            None => forall|j: int|
                0 <= j < entries.len() ==> !started_by(#[trigger] entries[j], slot, seq),
        },
    decreases entries.len(),
{
    if entries.len() > 0 {
        let rest = entries.drop_last();
        lemma_latest_start(rest, slot, seq);
        let e = entries.last();
        match latest_start(entries, slot, seq) {
            Some(found) => {
                if started_by(e, slot, seq) && (latest_start(rest, slot, seq) is None
                    || latest_start(rest, slot, seq)->0.mark <= e.started->0) {
                    assert(entries[entries.len() - 1] == e);
                } else {
                    let i = choose|i: int|
                        0 <= i < rest.len() && started_by(#[trigger] rest[i], slot, seq)
                            && rest[i].started == Some(found.mark) && rest[i].id == found.id;
                    assert(entries[i] == rest[i]);
                }
                assert forall|j: int|
                    0 <= j < entries.len() && started_by(
                        #[trigger] entries[j],
                        slot,
                        seq,
                    ) implies entries[j].started->0 <= found.mark by {
                    if j < rest.len() {
                        assert(entries[j] == rest[j]);
                    }
                }
            },
            None => {
                assert forall|j: int| 0 <= j < entries.len() implies !started_by(
                    #[trigger] entries[j],
                    slot,
                    seq,
                ) by {
                    if j < rest.len() {
                        assert(entries[j] == rest[j]);
                    }
                }
            },
        }
    }
}

/// What an event of a kind is about.
#[derive(Clone, Copy, Debug, PartialEq, Eq, Structural)]
pub enum Subject {
    /// The attempt that runs in the slot, or the actor that made it.
    Attempt,
    /// A submission that waits for its turn.
    Submission,
    /// Neither: the event is about the supervisor, or says what the
    /// ledger knows already.
    Neither,
}

/// What an event of `kind` is about. The end of an attempt, the backoff
/// before the next, the end of an actor and the removal of a task are
/// about the attempt that runs; a refusal by the controller is about a
/// submission that waits. That a task was added or an attempt started the
/// ledger learns from the submission and the attempt themselves.
pub open spec fn subject_of(kind: EventKind) -> Subject {
    match kind {
        EventKind::TaskStopped
        | EventKind::TaskFailed
        | EventKind::TimeoutHit
        | EventKind::BackoffScheduled
        | EventKind::ActorExhausted
        | EventKind::ActorDead
        | EventKind::TaskRemoveRequested
        | EventKind::TaskRemoved => Subject::Attempt,
        EventKind::ControllerRejected => Subject::Submission,
        _ => Subject::Neither,
    }
}

/// The submission that an event of `kind` is about, which names `slot`
/// and has the sequence number `seq`.
pub open spec fn resolved(entries: Seq<EntryView>, kind: EventKind, slot: Seq<char>, seq: u64)
    -> Option<Seq<char>> {
    match subject_of(kind) {
        Subject::Attempt => running_at(entries, slot, seq),
        Subject::Submission => waiting(entries, slot),
        Subject::Neither => None,
    }
}

/// Every submission but those of `id`.
pub open spec fn not_of(id: Seq<char>) -> spec_fn(EntryView) -> bool {
    |e: EntryView| e.id != id
}

/// The entries after an attempt of `id` started at `mark`: the start is
/// recorded where it is the first.
pub open spec fn after_start(entries: Seq<EntryView>, id: Seq<char>, mark: u64) -> Seq<EntryView> {
    entries.map_values(
        |e: EntryView|
            if e.id == id && e.started is None {
                EntryView { started: Some(mark), ..e }
            } else {
                e
            },
    )
}

/// Whether an attempt of `id` has started.
pub open spec fn begun(entries: Seq<EntryView>, id: Seq<char>) -> bool {
    exists|i: int| 0 <= i < entries.len() && (#[trigger] entries[i]).id == id && entries[i].started
        is Some
}

/// The entries after an event of `kind` was attributed to `id`: with the
/// removal of its task a submission is forgotten.
pub open spec fn after_attribution(entries: Seq<EntryView>, kind: EventKind, id: Option<Seq<char>>)
    -> Seq<EntryView> {
    if kind == EventKind::TaskRemoved && id is Some {
        entries.filter(not_of(id->0))
    } else {
        entries
    }
}

/// The view of an identifier that was resolved, or not.
pub open spec fn id_view(r: Option<TaskId>) -> Option<Seq<char>> {
    match r {
        Some(id) => Some(id@),
        None => None,
    }
}

/// What an event of `kind` is about.
pub fn subject(kind: EventKind) -> (r: Subject)
    ensures
        r == subject_of(kind),
{
    match kind {
        EventKind::TaskStopped
        | EventKind::TaskFailed
        | EventKind::TimeoutHit
        | EventKind::BackoffScheduled
        | EventKind::ActorExhausted
        | EventKind::ActorDead
        | EventKind::TaskRemoveRequested
        | EventKind::TaskRemoved => Subject::Attempt,
        EventKind::ControllerRejected => Subject::Submission,
        _ => Subject::Neither,
    }
}

impl Ledger {
    /// The ledger without a submission.
    pub fn new() -> (r: Self)
        ensures
            r@ == Seq::<EntryView>::empty(),
    {
        let r = Ledger { entries: Vec::new() };
        assert(r@ =~= Seq::<EntryView>::empty());
        r
    }

    /// Records that `id` was submitted to `slot`.
    pub fn submitted(&mut self, slot: &str, id: TaskId)
        ensures
            final(self)@ == old(self)@.push(EntryView { slot: slot@, id: id@, started: None }),
    {
        self.entries.push(Entry { slot: String::from_str(slot), id, started: None });
        assert(self@ =~= old(self)@.push(EntryView { slot: slot@, id: id@, started: None }));
    }

    /// Records that an attempt of `id` started when the sequence stood at
    /// `mark`; only the first start of a submission is kept.
    pub fn started(&mut self, id: &TaskId, mark: u64)
        ensures
            final(self)@ == after_start(old(self)@, id@, mark),
    {
        let n: usize = self.entries.len();
        let ghost before = self@;
        let ghost target = after_start(before, id@, mark);
        let mut i: usize = 0;
        while i < n
            invariant
                n == self.entries@.len(),
                n == before.len(),
                target == after_start(before, id@, mark),
                i <= n,
                forall|j: int| 0 <= j < i ==> (#[trigger] self.entries@[j])@ == target[j],
                forall|j: int| i <= j < n ==> (#[trigger] self.entries@[j])@ == before[j],
            decreases n - i,
        {
            let ghost prev = self.entries@;
            assert(prev[i as int]@ == before[i as int]);
            if self.entries[i].id.same(id) && self.entries[i].started.is_none() {
                self.entries[i].started = Some(mark);
            }
            proof {
                assert forall|j: int| 0 <= j < n && j != i implies self.entries@[j]
                    == prev[j] by {}
                assert(self.entries@[i as int]@ == target[i as int]);
            }
            i = i + 1;
        }
        assert forall|j: int| 0 <= j < n implies self@[j] == target[j] by {
            assert(self.entries@[j]@ == target[j]);
        }
        assert(self@ =~= after_start(old(self)@, id@, mark));
    }

    /// Forgets the submissions of `id`.
    pub fn forget(&mut self, id: &TaskId)
        ensures
            final(self)@ == old(self)@.filter(not_of(id@)),
    {
        let ghost before = self@;
        let mut kept: Vec<Entry> = Vec::new();
        let mut all: Vec<Entry> = Vec::new();
        std::mem::swap(&mut self.entries, &mut all);
        let ghost given = all@;
        proof {
            lemma_filter_empty(not_of(id@));
            assert(before.take(0) =~= Seq::<EntryView>::empty());
            assert(kept@.map_values(|e: Entry| e@) =~= Seq::<EntryView>::empty());
        }
        for e in it: all
            invariant
                it.seq() == given,
                before == given.map_values(|e: Entry| e@),
                kept@.map_values(|e: Entry| e@) == before.take(it.index()).filter(not_of(id@)),
        {
            let ghost seen = before.take(it.index());
            let ghost views = kept@.map_values(|e: Entry| e@);
            proof {
                lemma_filter_push(seen, e@, not_of(id@));
                assert(before.take(it.index() + 1) =~= seen.push(e@));
            }
            if !e.id.same(id) {
                kept.push(e);
                assert(kept@.map_values(|e: Entry| e@) =~= views.push(e@));
            }
        }
        assert(before.take(given.len() as int) =~= before);
        self.entries = kept;
    }

    /// The submission whose attempt ran in `slot` when the sequence stood
    /// at `seq`.
    pub fn running(&self, slot: &str, seq: u64) -> (r: Option<TaskId>)
        ensures
            id_view(r) == running_at(self@, slot@, seq),
    {
        let mut best: Option<(u64, usize)> = None;
        let ghost whole = self@;
        let mut i: usize = 0;
        assert(self@.take(0) =~= Seq::<EntryView>::empty());
        while i < self.entries.len()
            invariant
                i <= self.entries@.len(),
                self@.len() == self.entries@.len(),
                whole == self@,
                match best {
                    Some((m, at)) => at < i && latest_start(whole.take(i as int), slot@, seq)
                        == Some(Start { mark: m, id: whole[at as int].id }),
                    None => latest_start(whole.take(i as int), slot@, seq) is None,
                },
            decreases self.entries@.len() - i,
        {
            proof {
                assert(self@.take(i + 1).drop_last() =~= self@.take(i as int));
                assert(self@.take(i + 1).last() == self@[i as int]);
            }
            let e = &self.entries[i];
            if str_eq(e.slot.as_str(), slot) {
                if let Some(m) = e.started {
                    if m <= seq {
                        let later = match best {
                            Some((old_mark, _)) => old_mark <= m,
                            None => true,
                        };
                        if later {
                            best = Some((m, i));
                        }
                    }
                }
            }
            i = i + 1;
        }
        assert(self@.take(i as int) =~= self@);
        match best {
            Some((_, at)) => Some(self.entries[at].id.clone()),
            None => None,
        }
    }

    /// The latest submission to `slot` of which no attempt has started.
    pub fn waiting(&self, slot: &str) -> (r: Option<TaskId>)
        ensures
            id_view(r) == waiting(self@, slot@),
    {
        let mut i: usize = self.entries.len();
        assert(self@.take(i as int) =~= self@);
        while i > 0
            invariant
                i <= self.entries@.len(),
                self@.len() == self.entries@.len(),
                waiting(self@, slot@) == waiting(self@.take(i as int), slot@),
            decreases i,
        {
            proof {
                assert(self@.take(i as int).drop_last() =~= self@.take(i - 1));
                assert(self@.take(i as int).last() == self@[i - 1]);
            }
            let e = &self.entries[i - 1];
            if str_eq(e.slot.as_str(), slot) && e.started.is_none() {
                return Some(e.id.clone());
            }
            i = i - 1;
        }
        assert(self@.take(0).len() == 0);
        None
    }

    /// Whether an attempt of `id` has started.
    pub fn has_started(&self, id: &TaskId) -> (r: bool)
        ensures
            r == begun(self@, id@),
    {
        let mut i: usize = 0;
        while i < self.entries.len()
            invariant
                i <= self.entries@.len(),
                self@.len() == self.entries@.len(),
                forall|j: int|
                    0 <= j < i ==> !((#[trigger] self@[j]).id == id@ && self@[j].started is Some),
            decreases self.entries@.len() - i,
        {
            if self.entries[i].id.same(id) && self.entries[i].started.is_some() {
                assert(self@[i as int].id == id@ && self@[i as int].started is Some);
                return true;
            }
            i = i + 1;
        }
        false
    }

    /// Attributes an event of `kind`, which names `slot` and has the
    /// sequence number `seq`, to the submission it is about, and forgets
    /// the submission where the event says that its task was removed.
    pub fn attribute(&mut self, kind: EventKind, slot: &str, seq: u64) -> (r: Option<TaskId>)
        ensures
            id_view(r) == resolved(old(self)@, kind, slot@, seq),
            final(self)@ == after_attribution(old(self)@, kind, id_view(r)),
    {
        let r = self.resolve(kind, slot, seq);
        match kind {
            EventKind::TaskRemoved => {
                if let Some(id) = &r {
                    self.forget(id);
                }
            },
            _ => {},
        }
        r
    }

    /// The submission that an event of `kind` is about, which names
    /// `slot` and has the sequence number `seq`.
    pub fn resolve(&self, kind: EventKind, slot: &str, seq: u64) -> (r: Option<TaskId>)
        ensures
            id_view(r) == resolved(self@, kind, slot@, seq),
    {
        match subject(kind) {
            Subject::Attempt => self.running(slot, seq),
            Subject::Submission => self.waiting(slot),
            Subject::Neither => None,
        }
    }
}

impl Default for Ledger {
    fn default() -> (r: Self)
        ensures
            r@ == Seq::<EntryView>::empty(),
    {
        Ledger::new()
    }
}

} // verus!
