//! Runners that start processes on the host.

use crate::create_spec::{CreateSpec, CreateSpecView};
use crate::kind::TaskKind;
use crate::labels::LABEL_RUNNER_TAG;
use crate::runner::{
    clone_pairs, pair_views, BuildContext, BuiltView, ContextView, Launch, LaunchView, Runner,
    RunnerError,
};
use crate::text::{
    blank, clone_opt, clone_strings, decimal, decimal_of, is_blank, join, join3, opt_view,
    str_eq, views,
};
use vstd::prelude::*;
use vstd::string::StringExecFns;

verus! {

/// Errors of the execution backends.
#[derive(Debug)]
pub enum ExecError {
    /// A runner was handed a kind of task it does not run.
    UnsupportedKind { expected: &'static str, actual: String },
    /// No function is registered under the name.
    FunctionNotFound(String),
    /// The submission cannot be run as it is.
    InvalidSpec(String),
    /// The process could not be started.
    Spawn(String),
    /// The process exited with a code other than zero.
    NonZeroExit(i32),
    /// A signal ended the process.
    Signal,
    /// Reading or writing failed.
    Io(String),
    /// Something that should not happen did.
    Internal(String),
}

/// What an [`ExecError`] holds, as plain values.
pub enum ExecErrorView {
    UnsupportedKind { expected: Seq<char>, actual: Seq<char> },
    FunctionNotFound(Seq<char>),
    InvalidSpec(Seq<char>),
    Spawn(Seq<char>),
    NonZeroExit(i32),
    Signal,
    Io(Seq<char>),
    Internal(Seq<char>),
}

impl View for ExecError {
    type V = ExecErrorView;

    open spec fn view(&self) -> ExecErrorView {
        match self {
            ExecError::UnsupportedKind { expected, actual } => ExecErrorView::UnsupportedKind {
                expected: expected@,
                actual: actual@,
            },
            ExecError::FunctionNotFound(m) => ExecErrorView::FunctionNotFound(m@),
            ExecError::InvalidSpec(m) => ExecErrorView::InvalidSpec(m@),
            ExecError::Spawn(m) => ExecErrorView::Spawn(m@),
            ExecError::NonZeroExit(c) => ExecErrorView::NonZeroExit(*c),
            ExecError::Signal => ExecErrorView::Signal,
            ExecError::Io(m) => ExecErrorView::Io(m@),
            ExecError::Internal(m) => ExecErrorView::Internal(m@),
        }
    }
}

impl ExecErrorView {
    /// The error in words.
    pub open spec fn message(self) -> Seq<char> {
        match self {
            ExecErrorView::UnsupportedKind { expected, actual } => {
                "unsupported task kind: expected "@ + expected + ", got "@ + actual
            },
            ExecErrorView::FunctionNotFound(m) => "function not found in registry: "@ + m,
            ExecErrorView::InvalidSpec(m) => "invalid specification: "@ + m,
            ExecErrorView::Spawn(m) => "spawn failed: "@ + m,
            ExecErrorView::NonZeroExit(c) => "process exited with non-zero code: "@ + decimal_of(
                c as int,
            ),
            ExecErrorView::Signal => "process terminated by signal"@,
            ExecErrorView::Io(m) => "io error: "@ + m,
            ExecErrorView::Internal(m) => "internal error: "@ + m,
        }
    }
}

impl ExecError {
    /// The error in words.
    pub fn message(&self) -> (r: String)
        ensures
            r@ == self@.message(),
    {
        match self {
            ExecError::UnsupportedKind { expected, actual } => {
                let head = join3("unsupported task kind: expected ", expected, ", got ");
                join(head.as_str(), actual.as_str())
            },
            ExecError::FunctionNotFound(m) => join(
                "function not found in registry: ",
                m.as_str(),
            ),
            ExecError::InvalidSpec(m) => join("invalid specification: ", m.as_str()),
            ExecError::Spawn(m) => join("spawn failed: ", m.as_str()),
            ExecError::NonZeroExit(c) => {
                let digits = decimal(*c as i64);
                join("process exited with non-zero code: ", digits.as_str())
            },
            ExecError::Signal => String::from_str("process terminated by signal"),
            ExecError::Io(m) => join("io error: ", m.as_str()),
            ExecError::Internal(m) => join("internal error: ", m.as_str()),
        }
    }
}

/// The process that a [`ProcRunner`] starts.
#[derive(Debug)]
pub struct ProcConfig {
    /// Program to run.
    pub program: String,
    /// Its arguments.
    pub args: Vec<String>,
    /// Variables added to its environment.
    pub env: Vec<(String, String)>,
    /// Its working directory.
    pub cwd: Option<String>,
    /// Whether an exit code other than zero is a failure.
    pub fail_on_non_zero: bool,
}

/// What a [`ProcConfig`] holds, as plain values.
pub struct ProcConfigView {
    pub program: Seq<char>,
    pub args: Seq<Seq<char>>,
    pub env: Seq<(Seq<char>, Seq<char>)>,
    pub cwd: Option<Seq<char>>,
    pub fail_on_non_zero: bool,
}

impl View for ProcConfig {
    type V = ProcConfigView;

    open spec fn view(&self) -> ProcConfigView {
        ProcConfigView {
            program: self.program@,
            args: views(self.args@),
            env: pair_views(self.env@),
            cwd: opt_view(self.cwd),
            fail_on_non_zero: self.fail_on_non_zero,
        }
    }
}

impl Clone for ProcConfig {
    fn clone(&self) -> (r: Self)
        ensures
            r@ == self@,
    {
        ProcConfig {
            program: self.program.clone(),
            args: clone_strings(&self.args),
            env: clone_pairs(&self.env),
            cwd: clone_opt(&self.cwd),
            fail_on_non_zero: self.fail_on_non_zero,
        }
    }
}

impl Default for ProcConfig {
    fn default() -> (r: Self)
        ensures
            r@ == (ProcConfigView {
                program: Seq::empty(),
                args: Seq::empty(),
                env: Seq::empty(),
                cwd: None,
                fail_on_non_zero: true,
            }),
    {
        let r = ProcConfig {
            program: String::new(),
            args: Vec::new(),
            env: Vec::new(),
            cwd: None,
            fail_on_non_zero: true,
        };
        assert(views(r.args@) =~= Seq::<Seq<char>>::empty());
        assert(pair_views(r.env@) =~= Seq::<(Seq<char>, Seq<char>)>::empty());
        r
    }
}

/// Whether a submission asks for a native process.
pub open spec fn wants_process(spec: CreateSpecView) -> bool {
    spec.kind is Subprocess
}

/// Whether the labels of a submission let the runner tagged `tag` run it:
/// a submission that names a runner wants that runner and no other.
pub open spec fn tag_allows(labels: Map<Seq<char>, Seq<char>>, tag: Seq<char>) -> bool {
    labels.contains_key(LABEL_RUNNER_TAG@) ==> labels[LABEL_RUNNER_TAG@] == tag
}

/// Whether a runner of processes tagged `tag` can run the submission.
pub open spec fn process_runner_claims(spec: CreateSpecView, tag: Seq<char>) -> bool {
    wants_process(spec) && tag_allows(spec.labels, tag)
}

/// Whether the runner of processes tagged `tag` can run `spec`.
fn claims_process(spec: &CreateSpec, tag: &str) -> (r: bool)
    ensures
        r == process_runner_claims(spec@, tag@),
{
    let process = match &spec.kind {
        TaskKind::Subprocess { .. } => true,
        _ => false,
    };
    if !process {
        return false;
    }
    match spec.labels.get(LABEL_RUNNER_TAG) {
        Some(wanted) => str_eq(wanted, tag),
        None => true,
    }
}

/// Runs one program, fixed when the runner is made, for every submission
/// that asks for a native process and names no other runner. The name of
/// the runner is its tag.
pub struct ProcRunner {
    name: &'static str,
    cfg: ProcConfig,
}

impl ProcRunner {
    /// Name of the runner.
    pub closed spec fn label(&self) -> Seq<char> {
        self.name@
    }

    /// The process that the runner starts.
    pub closed spec fn config(&self) -> ProcConfigView {
        self.cfg@
    }

    /// A runner named `proc` that starts `cfg`.
    pub fn new(cfg: ProcConfig) -> (r: Self)
        ensures
            r.label() == "proc"@,
            r.config() == cfg@,
    {
        ProcRunner { name: "proc", cfg }
    }

    /// The same runner under the name `name`.
    pub fn with_name(self, name: &'static str) -> (r: Self)
        ensures
            r.label() == name@,
            r.config() == self.config(),
    {
        ProcRunner { name, cfg: self.cfg }
    }
}

impl Runner for ProcRunner {
    open spec fn claims(&self, spec: CreateSpecView) -> bool {
        process_runner_claims(spec, self.label())
    }

    /// The configured program, under the name of the slot; nothing where
    /// the program is blank.
    open spec fn built(&self, spec: CreateSpecView, ctx: ContextView) -> BuiltView {
        if blank(self.config().program) {
            Err("program is empty"@)
        } else {
            Ok(
                LaunchView::Program {
                    name: spec.slot,
                    program: self.config().program,
                    args: self.config().args,
                    env: self.config().env,
                    cwd: self.config().cwd,
                    fail_on_non_zero: self.config().fail_on_non_zero,
                },
            )
        }
    }

    fn name(&self) -> (r: &'static str)
        ensures
            r@ == self.label(),
    {
        self.name
    }

    fn supports(&self, spec: &CreateSpec) -> (r: bool) {
        claims_process(spec, self.name)
    }

    fn build_task(&self, spec: &CreateSpec, ctx: &BuildContext) -> (r: Result<
        Launch,
        RunnerError,
    >) {
        if is_blank(self.cfg.program.as_str()) {
            return Err(RunnerError::InvalidSpec(String::from_str("program is empty")));
        }
        let cfg = self.cfg.clone();
        Ok(
            Launch::Program {
                name: spec.slot.clone(),
                program: cfg.program,
                args: cfg.args,
                env: cfg.env,
                cwd: cfg.cwd,
                fail_on_non_zero: cfg.fail_on_non_zero,
            },
        )
    }
}

/// Runs one script in the shell of the host, for every submission that
/// asks for a native process and names no other runner. The name of the
/// runner is its tag.
pub struct ShellRunner {
    name: &'static str,
    /// The script.
    pub script: String,
    /// Variables added to its environment.
    pub env: Vec<(String, String)>,
    /// Its working directory.
    pub cwd: Option<String>,
    /// Whether an exit code other than zero is a failure.
    pub fail_on_non_zero: bool,
}

/// What a [`ShellRunner`] holds, as plain values.
pub struct ShellRunnerView {
    pub name: Seq<char>,
    pub script: Seq<char>,
    pub env: Seq<(Seq<char>, Seq<char>)>,
    pub cwd: Option<Seq<char>>,
    pub fail_on_non_zero: bool,
}

impl View for ShellRunner {
    type V = ShellRunnerView;

    closed spec fn view(&self) -> ShellRunnerView {
        ShellRunnerView {
            name: self.name@,
            script: self.script@,
            env: pair_views(self.env@),
            cwd: opt_view(self.cwd),
            fail_on_non_zero: self.fail_on_non_zero,
        }
    }
}

impl ShellRunner {
    /// A runner named `shell` that runs `script`, in the environment and
    /// directory of the agent, and counts an exit code other than zero as
    /// a failure.
    pub fn new(script: &str) -> (r: Self)
        ensures
            r@ == (ShellRunnerView {
                name: "shell"@,
                script: script@,
                env: Seq::empty(),
                cwd: None,
                fail_on_non_zero: true,
            }),
    {
        let r = ShellRunner {
            name: "shell",
            script: String::from_str(script),
            env: Vec::new(),
            cwd: None,
            fail_on_non_zero: true,
        };
        assert(pair_views(r.env@) =~= Seq::<(Seq<char>, Seq<char>)>::empty());
        r
    }

    /// The same runner under the name `name`.
    pub fn with_name(self, name: &'static str) -> (r: Self)
        ensures
            r@ == (ShellRunnerView { name: name@, ..self@ }),
    {
        ShellRunner {
            name,
            script: self.script,
            env: self.env,
            cwd: self.cwd,
            fail_on_non_zero: self.fail_on_non_zero,
        }
    }
}

impl Runner for ShellRunner {
    open spec fn claims(&self, spec: CreateSpecView) -> bool {
        process_runner_claims(spec, self@.name)
    }

    /// The script, under the name of the runner; nothing where the script
    /// is blank.
    open spec fn built(&self, spec: CreateSpecView, ctx: ContextView) -> BuiltView {
        if blank(self@.script) {
            Err("empty shell script"@)
        } else {
            Ok(
                LaunchView::Shell {
                    name: self@.name,
                    script: self@.script,
                    env: self@.env,
                    cwd: self@.cwd,
                    fail_on_non_zero: self@.fail_on_non_zero,
                },
            )
        }
    }

    fn name(&self) -> (r: &'static str)
        ensures
            r@ == self@.name,
    {
        self.name
    }

    fn supports(&self, spec: &CreateSpec) -> (r: bool) {
        claims_process(spec, self.name)
    }

    fn build_task(&self, spec: &CreateSpec, ctx: &BuildContext) -> (r: Result<
        Launch,
        RunnerError,
    >) {
        if is_blank(self.script.as_str()) {
            return Err(RunnerError::InvalidSpec(String::from_str("empty shell script")));
        }
        Ok(
            Launch::Shell {
                name: String::from_str(self.name),
                script: self.script.clone(),
                env: clone_pairs(&self.env),
                cwd: clone_opt(&self.cwd),
                fail_on_non_zero: self.fail_on_non_zero,
            },
        )
    }
}

} // verus!
