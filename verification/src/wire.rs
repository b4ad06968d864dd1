//! The messages of the RPC transport, as they arrive: every field
//! present, nothing validated yet.

use crate::env::{pairs, KeyValue};
use crate::policy::Factor;
use crate::runner::pair_views;
use crate::text::{opt_view, views};
use vstd::prelude::*;

verus! {

/// Status of a task on the wire.
#[derive(Clone, Copy, Debug, PartialEq, Eq, Structural)]
pub enum WireStatus {
    Unspecified,
    Pending,
    Running,
    Succeeded,
    Failed,
    Timeout,
    Canceled,
    Exhausted,
}

impl WireStatus {
    /// The number that stands for the status on the wire.
    pub open spec fn number(self) -> i32 {
        match self {
            WireStatus::Unspecified => 0,
            WireStatus::Pending => 1,
            WireStatus::Running => 2,
            WireStatus::Succeeded => 3,
            WireStatus::Failed => 4,
            WireStatus::Timeout => 5,
            WireStatus::Canceled => 6,
            WireStatus::Exhausted => 7,
        }
    }

    /// The status that `code` stands for, if it stands for one.
    pub open spec fn of_number(code: i32) -> Option<WireStatus> {
        if code == 0 {
            Some(WireStatus::Unspecified)
        } else if code == 1 {
            Some(WireStatus::Pending)
        } else if code == 2 {
            Some(WireStatus::Running)
        } else if code == 3 {
            Some(WireStatus::Succeeded)
        } else if code == 4 {
            Some(WireStatus::Failed)
        } else if code == 5 {
            Some(WireStatus::Timeout)
        } else if code == 6 {
            Some(WireStatus::Canceled)
        } else if code == 7 {
            Some(WireStatus::Exhausted)
        } else {
            None
        }
    }

    /// The number that stands for the status on the wire.
    pub fn code(self) -> (r: i32)
        ensures
            r == self.number(),
    {
        match self {
            WireStatus::Unspecified => 0,
            WireStatus::Pending => 1,
            WireStatus::Running => 2,
            WireStatus::Succeeded => 3,
            WireStatus::Failed => 4,
            WireStatus::Timeout => 5,
            WireStatus::Canceled => 6,
            WireStatus::Exhausted => 7,
        }
    }

    /// The status that `code` stands for, if it stands for one.
    pub fn from_code(code: i32) -> (r: Option<Self>)
        ensures
            r == Self::of_number(code),
    {
        if code == 0 {
            Some(WireStatus::Unspecified)
        } else if code == 1 {
            Some(WireStatus::Pending)
        } else if code == 2 {
            Some(WireStatus::Running)
        } else if code == 3 {
            Some(WireStatus::Succeeded)
        } else if code == 4 {
            Some(WireStatus::Failed)
        } else if code == 5 {
            Some(WireStatus::Timeout)
        } else if code == 6 {
            Some(WireStatus::Canceled)
        } else if code == 7 {
            Some(WireStatus::Exhausted)
        } else {
            None
        }
    }

    /// Every status is read back from its number.
    pub proof fn lemma_number_roundtrip(self)
        ensures
            Self::of_number(self.number()) == Some(self),
    {
    }
}

/// Restart strategy on the wire.
#[derive(Clone, Copy, Debug, PartialEq, Eq, Structural)]
pub enum WireRestart {
    Unspecified,
    Never,
    OnFailure,
    Always,
}

impl WireRestart {
    /// The number that stands for the strategy on the wire.
    pub open spec fn number(self) -> i32 {
        match self {
            WireRestart::Unspecified => 0,
            WireRestart::Never => 1,
            WireRestart::OnFailure => 2,
            WireRestart::Always => 3,
        }
    }

    /// The strategy that `code` stands for, if it stands for one.
    pub open spec fn of_number(code: i32) -> Option<WireRestart> {
        if code == 0 {
            Some(WireRestart::Unspecified)
        } else if code == 1 {
            Some(WireRestart::Never)
        } else if code == 2 {
            Some(WireRestart::OnFailure)
        } else if code == 3 {
            Some(WireRestart::Always)
        } else {
            None
        }
    }

    /// The number that stands for the strategy on the wire.
    pub fn code(self) -> (r: i32)
        ensures
            r == self.number(),
    {
        match self {
            WireRestart::Unspecified => 0,
            WireRestart::Never => 1,
            WireRestart::OnFailure => 2,
            WireRestart::Always => 3,
        }
    }

    /// The strategy that `code` stands for, if it stands for one.
    pub fn from_code(code: i32) -> (r: Option<Self>)
        ensures
            r == Self::of_number(code),
    {
        if code == 0 {
            Some(WireRestart::Unspecified)
        } else if code == 1 {
            Some(WireRestart::Never)
        } else if code == 2 {
            Some(WireRestart::OnFailure)
        } else if code == 3 {
            Some(WireRestart::Always)
        } else {
            None
        }
    }
}

/// Jitter strategy on the wire.
#[derive(Clone, Copy, Debug, PartialEq, Eq, Structural)]
pub enum WireJitter {
    Unspecified,
    Off,
    Full,
    Equal,
    Decorrelated,
}

impl WireJitter {
    /// The number that stands for the strategy on the wire.
    pub open spec fn number(self) -> i32 {
        match self {
            WireJitter::Unspecified => 0,
            WireJitter::Off => 1,
            WireJitter::Full => 2,
            WireJitter::Equal => 3,
            WireJitter::Decorrelated => 4,
        }
    }

    /// The strategy that `code` stands for, if it stands for one.
    pub open spec fn of_number(code: i32) -> Option<WireJitter> {
        if code == 0 {
            Some(WireJitter::Unspecified)
        } else if code == 1 {
            Some(WireJitter::Off)
        } else if code == 2 {
            Some(WireJitter::Full)
        } else if code == 3 {
            Some(WireJitter::Equal)
        } else if code == 4 {
            Some(WireJitter::Decorrelated)
        } else {
            None
        }
    }

    /// The number that stands for the strategy on the wire.
    pub fn code(self) -> (r: i32)
        ensures
            r == self.number(),
    {
        match self {
            WireJitter::Unspecified => 0,
            WireJitter::Off => 1,
            WireJitter::Full => 2,
            WireJitter::Equal => 3,
            WireJitter::Decorrelated => 4,
        }
    }

    /// The strategy that `code` stands for, if it stands for one.
    pub fn from_code(code: i32) -> (r: Option<Self>)
        ensures
            r == Self::of_number(code),
    {
        if code == 0 {
            Some(WireJitter::Unspecified)
        } else if code == 1 {
            Some(WireJitter::Off)
        } else if code == 2 {
            Some(WireJitter::Full)
        } else if code == 3 {
            Some(WireJitter::Equal)
        } else if code == 4 {
            Some(WireJitter::Decorrelated)
        } else {
            None
        }
    }
}

/// Admission strategy on the wire.
#[derive(Clone, Copy, Debug, PartialEq, Eq, Structural)]
pub enum WireAdmission {
    Unspecified,
    DropIfRunning,
    Replace,
    Queue,
}

impl WireAdmission {
    /// The number that stands for the strategy on the wire.
    pub open spec fn number(self) -> i32 {
        match self {
            WireAdmission::Unspecified => 0,
            WireAdmission::DropIfRunning => 1,
            WireAdmission::Replace => 2,
            WireAdmission::Queue => 3,
        }
    }

    /// The strategy that `code` stands for, if it stands for one.
    pub open spec fn of_number(code: i32) -> Option<WireAdmission> {
        if code == 0 {
            Some(WireAdmission::Unspecified)
        } else if code == 1 {
            Some(WireAdmission::DropIfRunning)
        } else if code == 2 {
            Some(WireAdmission::Replace)
        } else if code == 3 {
            Some(WireAdmission::Queue)
        } else {
            None
        }
    }

    /// The number that stands for the strategy on the wire.
    pub fn code(self) -> (r: i32)
        ensures
            r == self.number(),
    {
        match self {
            WireAdmission::Unspecified => 0,
            WireAdmission::DropIfRunning => 1,
            WireAdmission::Replace => 2,
            WireAdmission::Queue => 3,
        }
    }

    /// The strategy that `code` stands for, if it stands for one.
    pub fn from_code(code: i32) -> (r: Option<Self>)
        ensures
            r == Self::of_number(code),
    {
        if code == 0 {
            Some(WireAdmission::Unspecified)
        } else if code == 1 {
            Some(WireAdmission::DropIfRunning)
        } else if code == 2 {
            Some(WireAdmission::Replace)
        } else if code == 3 {
            Some(WireAdmission::Queue)
        } else {
            None
        }
    }
}

/// A native process, as submitted.
#[derive(Debug)]
pub struct SubprocessTask {
    pub command: String,
    pub args: Vec<String>,
    pub env: Vec<KeyValue>,
    pub cwd: Option<String>,
    pub fail_on_non_zero: bool,
}

/// A WebAssembly module, as submitted.
#[derive(Debug)]
pub struct WasmTask {
    pub module: String,
    pub args: Vec<String>,
    pub env: Vec<KeyValue>,
}

/// A container, as submitted; an empty `command` asks for the entry point
/// of the image.
#[derive(Debug)]
pub struct ContainerTask {
    pub image: String,
    pub command: Vec<String>,
    pub args: Vec<String>,
    pub env: Vec<KeyValue>,
}

/// The variants of a submitted kind.
#[derive(Debug)]
pub enum WireKind {
    Subprocess(SubprocessTask),
    Wasm(WasmTask),
    Container(ContainerTask),
}

/// What a [`WireKind`] holds, as plain values.
#[allow(inconsistent_fields)]
pub enum WireKindView {
    Subprocess {
        command: Seq<char>,
        args: Seq<Seq<char>>,
        env: Seq<(Seq<char>, Seq<char>)>,
        cwd: Option<Seq<char>>,
        fail_on_non_zero: bool,
    },
    Wasm { module: Seq<char>, args: Seq<Seq<char>>, env: Seq<(Seq<char>, Seq<char>)> },
    Container {
        image: Seq<char>,
        command: Seq<Seq<char>>,
        args: Seq<Seq<char>>,
        env: Seq<(Seq<char>, Seq<char>)>,
    },
}

impl View for WireKind {
    type V = WireKindView;

    open spec fn view(&self) -> WireKindView {
        match self {
            WireKind::Subprocess(t) => WireKindView::Subprocess {
                command: t.command@,
                args: views(t.args@),
                env: pairs(t.env@),
                cwd: opt_view(t.cwd),
                fail_on_non_zero: t.fail_on_non_zero,
            },
            WireKind::Wasm(t) => WireKindView::Wasm {
                module: t.module@,
                args: views(t.args@),
                env: pairs(t.env@),
            },
            WireKind::Container(t) => WireKindView::Container {
                image: t.image@,
                command: views(t.command@),
                args: views(t.args@),
                env: pairs(t.env@),
            },
        }
    }
}

/// The kind of a submission, which may lack its variant.
#[derive(Debug)]
pub struct WireTaskKind {
    pub kind: Option<WireKind>,
}

/// The view of a kind that may be missing, or lack its variant.
pub open spec fn kind_view(k: Option<WireTaskKind>) -> Option<Option<WireKindView>> {
    match k {
        Some(t) => Some(
            match t.kind {
                Some(v) => Some(v@),
                None => None,
            },
        ),
        None => None,
    }
}

/// Backoff parameters, as submitted.
#[derive(Clone, Copy, Debug, PartialEq, Eq, Structural)]
pub struct WireBackoff {
    pub jitter: i32,
    pub first_ms: u64,
    pub max_ms: u64,
    pub factor: Factor,
}

/// A submission, as it arrives.
#[derive(Debug)]
pub struct WireCreateSpec {
    pub slot: String,
    pub kind: Option<WireTaskKind>,
    pub timeout_ms: u64,
    pub restart: i32,
    pub restart_interval_ms: Option<u64>,
    pub backoff: Option<WireBackoff>,
    pub admission: i32,
    pub labels: Vec<(String, String)>,
}

/// What a [`WireCreateSpec`] holds, as plain values.
pub struct WireCreateSpecView {
    pub slot: Seq<char>,
    pub kind: Option<Option<WireKindView>>,
    pub timeout_ms: u64,
    pub restart: i32,
    pub restart_interval_ms: Option<u64>,
    pub backoff: Option<WireBackoff>,
    pub admission: i32,
    pub labels: Seq<(Seq<char>, Seq<char>)>,
}

impl View for WireCreateSpec {
    type V = WireCreateSpecView;

    open spec fn view(&self) -> WireCreateSpecView {
        WireCreateSpecView {
            slot: self.slot@,
            kind: kind_view(self.kind),
            timeout_ms: self.timeout_ms,
            restart: self.restart,
            restart_interval_ms: self.restart_interval_ms,
            backoff: self.backoff,
            admission: self.admission,
            labels: pair_views(self.labels@),
        }
    }
}

/// The snapshot of a task, as it is sent.
#[derive(Debug)]
pub struct WireTaskInfo {
    pub id: String,
    pub slot: String,
    pub status: i32,
    pub attempt: u32,
    pub created_at: i64,
    pub updated_at: i64,
    pub error: Option<String>,
}

/// What a [`WireTaskInfo`] holds, as plain values.
pub struct WireTaskInfoView {
    pub id: Seq<char>,
    pub slot: Seq<char>,
    pub status: i32,
    pub attempt: u32,
    pub created_at: i64,
    pub updated_at: i64,
    pub error: Option<Seq<char>>,
}

impl View for WireTaskInfo {
    type V = WireTaskInfoView;

    open spec fn view(&self) -> WireTaskInfoView {
        WireTaskInfoView {
            id: self.id@,
            slot: self.slot@,
            status: self.status,
            attempt: self.attempt,
            created_at: self.created_at,
            updated_at: self.updated_at,
            error: opt_view(self.error),
        }
    }
}

} // verus!
