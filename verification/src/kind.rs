//! The execution variants of a task.

use crate::env::TaskEnv;
use crate::text::{blank, clone_opt, clone_strings, opt_view, views};
use vstd::prelude::*;

verus! {

/// A switch that is on unless it is turned off.
#[derive(Clone, Copy, Debug, PartialEq, Eq, Structural)]
pub struct Flag(bool);

impl Flag {
    /// Whether the switch is on.
    pub closed spec fn on(self) -> bool {
        self.0
    }

    /// The switch turned on.
    pub fn enabled() -> (r: Self)
        ensures
            r.on(),
    {
        Flag(true)
    }

    /// The switch turned off.
    pub fn disabled() -> (r: Self)
        ensures
            !r.on(),
    {
        Flag(false)
    }

    /// Whether the switch is on.
    pub fn is_enabled(&self) -> (r: bool)
        ensures
            r == self.on(),
    {
        self.0
    }
}

impl Default for Flag {
    fn default() -> (r: Self)
        ensures
            r.on(),
    {
        Flag(true)
    }
}

impl From<bool> for Flag {
    fn from(on: bool) -> (r: Self)
        ensures
            r.on() == on,
    {
        Flag(on)
    }
}

impl vstd::std_specs::convert::FromSpecImpl<bool> for Flag {
    open spec fn obeys_from_spec() -> bool {
        true
    }

    closed spec fn from_spec(on: bool) -> Self {
        Flag(on)
    }
}

/// How a task is executed, with what the backend needs to run it.
#[derive(Debug)]
#[allow(inconsistent_fields)]
pub enum TaskKind {
    /// A task that runs inside the process itself.
    Internal,
    /// A native process on the host.
    Subprocess {
        /// Program to run.
        command: String,
        /// Its arguments.
        args: Vec<String>,
        /// Its environment.
        env: TaskEnv,
        /// Working directory; that of the agent where absent.
        cwd: Option<String>,
        /// Whether an exit code other than zero is a failure.
        fail_on_non_zero: Flag,
    },
    /// A WebAssembly module.
    Wasm {
        /// Path of the module.
        module: String,
        /// Arguments of its entry point.
        args: Vec<String>,
        /// Environment shown to the module.
        env: TaskEnv,
    },
    /// An OCI container.
    Container {
        /// Image to run.
        image: String,
        /// Entry point; that of the image where absent.
        command: Option<Vec<String>>,
        /// Arguments of the entry point.
        args: Vec<String>,
        /// Environment of the container.
        env: TaskEnv,
    },
}

/// What a [`TaskKind`] holds, as plain values.
#[allow(inconsistent_fields)]
pub enum TaskKindView {
    Internal,
    Subprocess {
        command: Seq<char>,
        args: Seq<Seq<char>>,
        env: Seq<(Seq<char>, Seq<char>)>,
        cwd: Option<Seq<char>>,
        fail_on_non_zero: bool,
    },
    Wasm { module: Seq<char>, args: Seq<Seq<char>>, env: Seq<(Seq<char>, Seq<char>)> },
    Container {
        image: Seq<char>,
        command: Option<Seq<Seq<char>>>,
        args: Seq<Seq<char>>,
        env: Seq<(Seq<char>, Seq<char>)>,
    },
}

impl TaskKindView {
    /// The field that names what to run is not blank.
    pub open spec fn valid(self) -> bool {
        match self {
            TaskKindView::Internal => true,
            TaskKindView::Subprocess { command, .. } => !blank(command),
            TaskKindView::Wasm { module, .. } => !blank(module),
            TaskKindView::Container { image, .. } => !blank(image),
        }
    }

    /// Short name of the variant.
    pub open spec fn label(self) -> Seq<char> {
        match self {
            TaskKindView::Internal => "fn"@,
            TaskKindView::Subprocess { .. } => "exec"@,
            TaskKindView::Wasm { .. } => "wasm"@,
            TaskKindView::Container { .. } => "container"@,
        }
    }
}

impl View for TaskKind {
    type V = TaskKindView;

    open spec fn view(&self) -> TaskKindView {
        match self {
            TaskKind::Internal => TaskKindView::Internal,
            TaskKind::Subprocess { command, args, env, cwd, fail_on_non_zero } => {
                TaskKindView::Subprocess {
                    command: command@,
                    args: views(args@),
                    env: env@,
                    cwd: opt_view(*cwd),
                    fail_on_non_zero: fail_on_non_zero.on(),
                }
            },
            TaskKind::Wasm { module, args, env } => TaskKindView::Wasm {
                module: module@,
                args: views(args@),
                env: env@,
            },
            TaskKind::Container { image, command, args, env } => TaskKindView::Container {
                image: image@,
                command: match command {
                    Some(c) => Some(views(c@)),
                    None => None,
                },
                args: views(args@),
                env: env@,
            },
        }
    }
}

impl TaskKind {
    /// Short name of the variant, for logs, metrics and routing: `fn`,
    /// `exec`, `wasm` or `container`.
    pub fn kind(&self) -> (r: &'static str)
        ensures
            r@ == self@.label(),
    {
        match self {
            TaskKind::Internal => "fn",
            TaskKind::Subprocess { .. } => "exec",
            TaskKind::Wasm { .. } => "wasm",
            TaskKind::Container { .. } => "container",
        }
    }
}

impl Clone for TaskKind {
    fn clone(&self) -> (r: Self)
        ensures
            r@ == self@,
    {
        match self {
            TaskKind::Internal => TaskKind::Internal,
            TaskKind::Subprocess { command, args, env, cwd, fail_on_non_zero } => {
                TaskKind::Subprocess {
                    command: command.clone(),
                    args: clone_strings(args),
                    env: env.clone(),
                    cwd: clone_opt(cwd),
                    fail_on_non_zero: *fail_on_non_zero,
                }
            },
            TaskKind::Wasm { module, args, env } => TaskKind::Wasm {
                module: module.clone(),
                args: clone_strings(args),
                env: env.clone(),
            },
            TaskKind::Container { image, command, args, env } => TaskKind::Container {
                image: image.clone(),
                command: match command {
                    Some(c) => Some(clone_strings(c)),
                    None => None,
                },
                args: clone_strings(args),
                env: env.clone(),
            },
        }
    }
}

impl Default for TaskKind {
    fn default() -> (r: Self)
        ensures
            r@ == TaskKindView::Internal,
    {
        TaskKind::Internal
    }
}

} // verus!
