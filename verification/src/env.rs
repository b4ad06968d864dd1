//! Environment variables handed to a task.

use crate::text::str_eq;
use vstd::prelude::*;
use vstd::std_specs::iter::IteratorSpec;
use vstd::string::StringExecFns;

verus! {

/// One key with its value.
#[derive(Debug)]
pub struct KeyValue {
    key: String,
    value: String,
}

impl View for KeyValue {
    type V = (Seq<char>, Seq<char>);

    closed spec fn view(&self) -> (Seq<char>, Seq<char>) {
        (self.key@, self.value@)
    }
}

impl KeyValue {
    /// The pair `key`, `value`.
    pub fn new(key: &str, value: &str) -> (r: Self)
        ensures
            r@ == (key@, value@),
    {
        KeyValue { key: String::from_str(key), value: String::from_str(value) }
    }

    /// The key.
    pub fn key(&self) -> (r: &str)
        ensures
            r@ == self@.0,
    {
        self.key.as_str()
    }

    /// The value.
    pub fn value(&self) -> (r: &str)
        ensures
            r@ == self@.1,
    {
        self.value.as_str()
    }
}

impl Clone for KeyValue {
    fn clone(&self) -> (r: Self)
        ensures
            r@ == self@,
    {
        KeyValue { key: self.key.clone(), value: self.value.clone() }
    }
}

impl PartialEq for KeyValue {
    fn eq(&self, other: &Self) -> (r: bool) {
        self.key == other.key && self.value == other.value
    }
}

impl vstd::std_specs::cmp::PartialEqSpecImpl for KeyValue {
    open spec fn obeys_eq_spec() -> bool {
        true
    }

    open spec fn eq_spec(&self, other: &Self) -> bool {
        self@ == other@
    }
}

impl Eq for KeyValue {

}

/// The pairs of a list of entries.
pub open spec fn pairs(v: Seq<KeyValue>) -> Seq<(Seq<char>, Seq<char>)> {
    v.map_values(|kv: KeyValue| kv@)
}

/// The value that a lookup of `key` finds in `entries`: that of the last
/// entry with this key, if there is one.
pub open spec fn lookup(entries: Seq<(Seq<char>, Seq<char>)>, key: Seq<char>) -> Option<
    Seq<char>,
>
    decreases entries.len(),
{
    if entries.len() == 0 {
        None
    } else if entries.last().0 == key {
        Some(entries.last().1)
    } else {
        lookup(entries.drop_last(), key)
    }
}

/// A lookup finds something exactly when some entry has the key.
pub proof fn lemma_lookup_some(entries: Seq<(Seq<char>, Seq<char>)>, key: Seq<char>)
    ensures
        lookup(entries, key) is Some <==> exists|i: int|
            0 <= i < entries.len() && (#[trigger] entries[i]).0 == key,
    decreases entries.len(),
{
    if entries.len() > 0 {
        if entries.last().0 == key {
            assert(entries[entries.len() - 1].0 == key);
        } else {
            lemma_lookup_some(entries.drop_last(), key);
            if lookup(entries.drop_last(), key) is Some {
                let i = choose|i: int|
                    0 <= i < entries.drop_last().len() && (#[trigger] entries.drop_last()[i]).0
                        == key;
                assert(entries[i].0 == key);
            }
            if exists|i: int| 0 <= i < entries.len() && (#[trigger] entries[i]).0 == key {
                let i = choose|i: int| 0 <= i < entries.len() && (#[trigger] entries[i]).0 == key;
                assert(entries.drop_last()[i].0 == key);
            }
        }
    }
}

/// In a concatenation the second list wins: a lookup falls back to the
/// first only where the second has no entry for the key.
pub proof fn lemma_lookup_concat(
    a: Seq<(Seq<char>, Seq<char>)>,
    b: Seq<(Seq<char>, Seq<char>)>,
    key: Seq<char>,
)
    ensures
        lookup(a + b, key) == if lookup(b, key) is Some {
            lookup(b, key)
        } else {
            lookup(a, key)
        },
    decreases b.len(),
{
    if b.len() == 0 {
        assert(a + b == a);
    } else {
        assert((a + b).last() == b.last());
        assert((a + b).drop_last() == a + b.drop_last());
        if b.last().0 != key {
            lemma_lookup_concat(a, b.drop_last(), key);
        }
    }
}

/// List of environment variables, in the order given. Where a key occurs
/// more than once the last entry counts.
#[derive(Debug)]
pub struct TaskEnv(pub Vec<KeyValue>);

impl View for TaskEnv {
    type V = Seq<(Seq<char>, Seq<char>)>;

    open spec fn view(&self) -> Seq<(Seq<char>, Seq<char>)> {
        pairs(self.0@)
    }
}

impl TaskEnv {
    /// The empty environment.
    pub fn new() -> (r: Self)
        ensures
            r@ == Seq::<(Seq<char>, Seq<char>)>::empty(),
    {
        let r = TaskEnv(Vec::new());
        assert(r@ =~= Seq::<(Seq<char>, Seq<char>)>::empty());
        r
    }

    /// Number of entries, repeated keys included.
    pub fn len(&self) -> (r: usize)
        ensures
            r == self@.len(),
    {
        self.0.len()
    }

    /// The environment with one entry.
    pub fn single(key: &str, value: &str) -> (r: Self)
        ensures
            r@ == seq![(key@, value@)],
    {
        let mut v: Vec<KeyValue> = Vec::new();
        v.push(KeyValue::new(key, value));
        let r = TaskEnv(v);
        assert(r@ =~= seq![(key@, value@)]);
        r
    }

    /// Whether there is no entry.
    pub fn is_empty(&self) -> (r: bool)
        ensures
            r == (self@.len() == 0),
    {
        self.0.len() == 0
    }

    /// The entries in order.
    pub fn iter(&self) -> (r: std::slice::Iter<'_, KeyValue>)
        ensures
            r.remaining().len() == self@.len(),
            forall|i: int| 0 <= i < self@.len() ==> (#[trigger] r.remaining()[i])@ == self@[i],
    {
        broadcast use vstd::std_specs::slice::axiom_spec_slice_iter;

        let r = self.0.iter();
        assert(r.remaining() == self.0@.as_ref());
        assert(forall|i: int|
            0 <= i < self@.len() ==> (#[trigger] r.remaining()[i])@ == self.0@[i]@);
        r
    }

    /// The value of `key`: that of the last entry with this key.
    pub fn get(&self, key: &str) -> (r: Option<&str>)
        ensures
            match r {
                Some(v) => lookup(self@, key@) == Some(v@),
                None => lookup(self@, key@) is None,
            },
    {
        let mut i: usize = self.0.len();
        assert(self@.take(i as int) == self@);
        while i > 0
            invariant
                i <= self.0@.len(),
                lookup(self@, key@) == lookup(self@.take(i as int), key@),
            decreases i,
        {
            let kv = &self.0[i - 1];
            assert(self@.take(i as int).last() == kv@);
            assert(self@.take(i as int).drop_last() == self@.take(i - 1));
            if str_eq(kv.key(), key) {
                return Some(kv.value());
            }
            i = i - 1;
        }
        assert(self@.take(0).len() == 0);
        None
    }

    /// Appends an entry; it overrides earlier entries with the same key.
    pub fn push(&mut self, key: &str, value: &str)
        ensures
            final(self)@ == old(self)@.push((key@, value@)),
    {
        self.0.push(KeyValue::new(key, value));
        assert(self@ =~= old(self)@.push((key@, value@)));
    }

    /// Both environments in a row, so that the entries of `other` override
    /// those of `self`.
    pub fn merged(&self, other: &TaskEnv) -> (r: TaskEnv)
        ensures
            r@ == self@ + other@,
    {
        let mut out: Vec<KeyValue> = Vec::new();
        let mut i: usize = 0;
        while i < self.0.len()
            invariant
                i <= self.0@.len(),
                out@.len() == i,
                forall|k: int| 0 <= k < i ==> (#[trigger] out@[k])@ == self.0@[k]@,
            decreases self.0@.len() - i,
        {
            out.push(self.0[i].clone());
            i = i + 1;
        }
        let mut j: usize = 0;
        while j < other.0.len()
            invariant
                i == self.0@.len(),
                j <= other.0@.len(),
                out@.len() == i + j,
                forall|k: int| 0 <= k < i ==> (#[trigger] out@[k])@ == self.0@[k]@,
                forall|k: int| 0 <= k < j ==> (#[trigger] out@[i + k])@ == other.0@[k]@,
            decreases other.0@.len() - j,
        {
            out.push(other.0[j].clone());
            j = j + 1;
        }
        assert forall|k: int| 0 <= k < out@.len() implies (#[trigger] pairs(out@)[k]) == (self@
            + other@)[k] by {
            if k >= i {
                assert(out@[i + (k - i)]@ == other.0@[k - i]@);
            }
        }
        assert(pairs(out@) =~= self@ + other@);
        TaskEnv(out)
    }
}

impl Clone for TaskEnv {
    fn clone(&self) -> (r: Self)
        ensures
            r@ == self@,
    {
        let empty = TaskEnv(Vec::new());
        assert(empty@ =~= Seq::<(Seq<char>, Seq<char>)>::empty());
        let r = self.merged(&empty);
        assert(self@ + empty@ =~= self@);
        r
    }
}

impl Default for TaskEnv {
    fn default() -> (r: Self)
        ensures
            r@ == Seq::<(Seq<char>, Seq<char>)>::empty(),
    {
        TaskEnv::new()
    }
}

impl PartialEq for TaskEnv {
    fn eq(&self, other: &Self) -> (r: bool) {
        if self.0.len() != other.0.len() {
            assert(self@.len() != other@.len());
            return false;
        }
        let mut i: usize = 0;
        while i < self.0.len()
            invariant
                i <= self.0@.len(),
                self.0@.len() == other.0@.len(),
                self@.take(i as int) == other@.take(i as int),
            decreases self.0@.len() - i,
        {
            if !(self.0[i] == other.0[i]) {
                assert(self@[i as int] != other@[i as int]);
                return false;
            }
            i = i + 1;
            assert(self@.take(i as int) =~= self@.take(i - 1).push(self@[i - 1]));
            assert(other@.take(i as int) =~= other@.take(i - 1).push(other@[i - 1]));
        }
        assert(self@ == self@.take(i as int));
        assert(other@ == other@.take(i as int));
        true
    }
}

impl vstd::std_specs::cmp::PartialEqSpecImpl for TaskEnv {
    open spec fn obeys_eq_spec() -> bool {
        true
    }

    open spec fn eq_spec(&self, other: &Self) -> bool {
        self@ == other@
    }
}

impl Eq for TaskEnv {

}

} // verus!
