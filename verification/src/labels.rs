//! Labels by which a submission picks among capable runners.

use crate::env::{lookup, TaskEnv};
use vstd::prelude::*;
use vstd::string::StringExecFns;

verus! {

/// Label under which a submission names the runner it wants.
pub const LABEL_RUNNER_TAG: &'static str = "runner-tag";

/// The map that a list of entries stands for: later entries override
/// earlier ones.
pub open spec fn as_map(entries: Seq<(Seq<char>, Seq<char>)>) -> Map<Seq<char>, Seq<char>>
    decreases entries.len(),
{
    if entries.len() == 0 {
        Map::empty()
    } else {
        as_map(entries.drop_last()).insert(entries.last().0, entries.last().1)
    }
}

/// Looking a key up in a list of entries reads the map the list stands for.
pub proof fn lemma_as_map_lookup(entries: Seq<(Seq<char>, Seq<char>)>, key: Seq<char>)
    ensures
        lookup(entries, key) == if as_map(entries).contains_key(key) {
            Some(as_map(entries)[key])
        } else {
            None
        },
    decreases entries.len(),
{
    if entries.len() > 0 {
        lemma_as_map_lookup(entries.drop_last(), key);
    }
}

/// String labels attached to a submission, one value per key.
#[derive(Debug)]
pub struct RunnerLabels {
    entries: TaskEnv,
}

impl View for RunnerLabels {
    type V = Map<Seq<char>, Seq<char>>;

    closed spec fn view(&self) -> Map<Seq<char>, Seq<char>> {
        as_map(self.entries@)
    }
}

impl RunnerLabels {
    /// No labels.
    pub fn new() -> (r: Self)
        ensures
            r@ == Map::<Seq<char>, Seq<char>>::empty(),
    {
        RunnerLabels { entries: TaskEnv::new() }
    }

    /// Sets the label `key` to `value`, replacing what it was.
    pub fn insert(&mut self, key: &str, value: &str)
        ensures
            final(self)@ == old(self)@.insert(key@, value@),
    {
        self.entries.push(key, value);
        assert(self.entries@.drop_last() == old(self).entries@);
    }

    /// The labels as a list of entries that stands for the same map.
    pub fn entries(&self) -> (r: Vec<(String, String)>)
        ensures
            as_map(crate::runner::pair_views(r@)) == self@,
    {
        let mut out: Vec<(String, String)> = Vec::new();
        let mut i: usize = 0;
        while i < self.entries.0.len()
            invariant
                i <= self.entries.0@.len(),
                out@.len() == i,
                forall|j: int|
                    0 <= j < i ==> ((#[trigger] out@[j]).0@, out@[j].1@) == self.entries.0@[j]@,
            decreases self.entries.0@.len() - i,
        {
            let kv = &self.entries.0[i];
            out.push((String::from_str(kv.key()), String::from_str(kv.value())));
            i = i + 1;
        }
        assert(crate::runner::pair_views(out@) =~= self.entries@);
        out
    }

    /// The value of the label `key`, if it is set.
    pub fn get(&self, key: &str) -> (r: Option<&str>)
        ensures
            match r {
                Some(v) => self@.contains_key(key@) && self@[key@] == v@,
                None => !self@.contains_key(key@),
            },
    {
        proof {
            lemma_as_map_lookup(self.entries@, key@);
        }
        self.entries.get(key)
    }
}

impl Clone for RunnerLabels {
    fn clone(&self) -> (r: Self)
        ensures
            r@ == self@,
    {
        RunnerLabels { entries: self.entries.clone() }
    }
}

impl Default for RunnerLabels {
    fn default() -> (r: Self)
        ensures
            r@ == Map::<Seq<char>, Seq<char>>::empty(),
    {
        RunnerLabels::new()
    }
}

} // verus!
