//! Task identifiers.

use vstd::prelude::*;
use vstd::string::StringExecFns;

verus! {

/// Opaque identifier of a task, unique across the life of the process.
#[derive(Debug)]
pub struct TaskId(String);

impl View for TaskId {
    type V = Seq<char>;

    open spec fn view(&self) -> Seq<char> {
        self.as_chars()
    }
}

impl TaskId {
    /// The characters of the identifier.
    pub closed spec fn as_chars(&self) -> Seq<char> {
        self.0@
    }

    /// The identifier written as `id`.
    pub fn new(id: &str) -> (r: Self)
        ensures
            r@ == id@,
    {
        TaskId(String::from_str(id))
    }

    /// The identifier as a string slice.
    pub fn as_str(&self) -> (r: &str)
        ensures
            r@ == self@,
    {
        self.0.as_str()
    }

    /// The identifier as an owned string.
    pub fn to_string(&self) -> (r: String)
        ensures
            r@ == self@,
    {
        self.0.clone()
    }

    /// Whether both identifiers are written the same.
    pub fn same(&self, other: &TaskId) -> (r: bool)
        ensures
            r == (self@ == other@),
    {
        self.0 == other.0
    }
}

impl Clone for TaskId {
    fn clone(&self) -> (r: Self)
        ensures
            r@ == self@,
    {
        TaskId(self.0.clone())
    }
}

impl PartialEq for TaskId {
    fn eq(&self, other: &Self) -> (r: bool) {
        self.0 == other.0
    }
}

impl vstd::std_specs::cmp::PartialEqSpecImpl for TaskId {
    open spec fn obeys_eq_spec() -> bool {
        true
    }

    open spec fn eq_spec(&self, other: &Self) -> bool {
        self@ == other@
    }
}

impl Eq for TaskId {

}

impl From<&str> for TaskId {
    fn from(id: &str) -> (r: Self)
        ensures
            r@ == id@,
    {
        TaskId(String::from_str(id))
    }
}

impl vstd::std_specs::convert::FromSpecImpl<&str> for TaskId {
    open spec fn obeys_from_spec() -> bool {
        false
    }

    open spec fn from_spec(id: &str) -> Self {
        arbitrary()
    }
}

impl From<String> for TaskId {
    fn from(id: String) -> (r: Self)
        ensures
            r@ == id@,
    {
        TaskId(id)
    }
}

impl vstd::std_specs::convert::FromSpecImpl<String> for TaskId {
    open spec fn obeys_from_spec() -> bool {
        false
    }

    open spec fn from_spec(id: String) -> Self {
        arbitrary()
    }
}

} // verus!
