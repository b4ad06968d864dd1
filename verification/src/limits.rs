//! Resource limits of a child process.

use vstd::prelude::*;

verus! {

/// Limits to put on a child process before it runs; each is optional.
#[derive(Clone, Copy, Debug, PartialEq, Eq, Structural)]
pub struct RlimitConfig {
    /// Largest number of open file descriptors.
    pub max_open_files: Option<u64>,
    /// Largest size of a file the process creates, in bytes.
    pub max_file_size_bytes: Option<u64>,
    /// Whether core dumps are switched off.
    pub disable_core_dumps: bool,
}

/// A resource that can be limited.
#[derive(Clone, Copy, Debug, PartialEq, Eq, Structural)]
pub enum Resource {
    /// Number of open file descriptors.
    OpenFiles,
    /// Size of a created file.
    FileSize,
    /// Size of a core dump.
    CoreSize,
}

/// One limit to set: both the soft and the hard limit of `resource`
/// become `value`.
#[derive(Clone, Copy, Debug, PartialEq, Eq, Structural)]
pub struct Rlimit {
    pub resource: Resource,
    pub value: u64,
}

impl RlimitConfig {
    /// No limit is configured.
    pub open spec fn empty(self) -> bool {
        self.max_open_files is None && !self.disable_core_dumps && self.max_file_size_bytes
            is None
    }

    /// The limits to set, in the order in which they are set: open files,
    /// file size, core size.
    pub open spec fn limits(self) -> Seq<Rlimit> {
        (match self.max_open_files {
            Some(n) => seq![Rlimit { resource: Resource::OpenFiles, value: n }],
            None => Seq::empty(),
        }) + (match self.max_file_size_bytes {
            Some(n) => seq![Rlimit { resource: Resource::FileSize, value: n }],
            None => Seq::empty(),
        }) + (if self.disable_core_dumps {
            seq![Rlimit { resource: Resource::CoreSize, value: 0 }]
        } else {
            Seq::empty()
        })
    }

    /// Whether no limit is configured.
    pub fn is_empty(&self) -> (r: bool)
        ensures
            r == self.empty(),
    {
        self.max_open_files.is_none() && !self.disable_core_dumps
            && self.max_file_size_bytes.is_none()
    }

    /// The limits to set in the child before it runs, in order.
    pub fn plan(&self) -> (r: Vec<Rlimit>)
        ensures
            r@ == self.limits(),
    {
        let mut out: Vec<Rlimit> = Vec::new();
        if self.is_empty() {
            assert(self.limits() =~= Seq::<Rlimit>::empty());
            return out;
        }
        if let Some(n) = self.max_open_files {
            out.push(Rlimit { resource: Resource::OpenFiles, value: n });
        }
        if let Some(n) = self.max_file_size_bytes {
            out.push(Rlimit { resource: Resource::FileSize, value: n });
        }
        if self.disable_core_dumps {
            out.push(Rlimit { resource: Resource::CoreSize, value: 0 });
        }
        assert(out@ =~= self.limits());
        out
    }

    /// Nothing is set exactly when nothing is configured.
    pub proof fn lemma_empty_plan(self)
        ensures
            self.empty() <==> self.limits().len() == 0,
    {
    }
}

impl Default for RlimitConfig {
    fn default() -> (r: Self)
        ensures
            r.empty(),
            r.max_open_files is None,
            r.max_file_size_bytes is None,
            !r.disable_core_dumps,
    {
        RlimitConfig { max_open_files: None, max_file_size_bytes: None, disable_core_dumps: false }
    }
}

} // verus!
