//! Runners: the backends that turn a submission into something to launch.

use crate::create_spec::{CreateSpec, CreateSpecView};
use crate::env::TaskEnv;
use crate::text::{decimal, decimal_of, join, opt_view, views};
use vstd::prelude::*;
use vstd::string::StringExecFns;

verus! {

/// Why a runner could not build a task.
#[derive(Debug)]
pub enum RunnerError {
    /// The runner cannot run what it was configured or asked to run.
    InvalidSpec(String),
}

impl View for RunnerError {
    type V = Seq<char>;

    open spec fn view(&self) -> Seq<char> {
        match self {
            RunnerError::InvalidSpec(m) => m@,
        }
    }
}

impl RunnerError {
    /// The error in words.
    pub fn message(&self) -> (r: String)
        ensures
            r@ == "invalid spec: "@ + self@,
    {
        match self {
            RunnerError::InvalidSpec(m) => join("invalid spec: ", m.as_str()),
        }
    }
}

/// What every runner is handed when it builds a task.
#[derive(Debug)]
pub struct BuildContext {
    env: TaskEnv,
}

impl View for BuildContext {
    type V = Seq<(Seq<char>, Seq<char>)>;

    closed spec fn view(&self) -> Seq<(Seq<char>, Seq<char>)> {
        self.env@
    }
}

impl BuildContext {
    /// A context with the environment `env`.
    pub fn new(env: TaskEnv) -> (r: Self)
        ensures
            r@ == env@,
    {
        BuildContext { env }
    }

    /// The environment that every task gets.
    pub fn env(&self) -> (r: &TaskEnv)
        ensures
            r@ == self@,
    {
        &self.env
    }
}

impl Default for BuildContext {
    fn default() -> (r: Self)
        ensures
            r@ == Seq::<(Seq<char>, Seq<char>)>::empty(),
    {
        BuildContext { env: TaskEnv::new() }
    }
}

/// The views of a list of pairs of strings.
pub open spec fn pair_views(v: Seq<(String, String)>) -> Seq<(Seq<char>, Seq<char>)> {
    v.map_values(|p: (String, String)| (p.0@, p.1@))
}

/// A copy of a list of pairs of strings.
pub fn clone_pairs(v: &Vec<(String, String)>) -> (r: Vec<(String, String)>)
    ensures
        pair_views(r@) == pair_views(v@),
{
    let mut r: Vec<(String, String)> = Vec::new();
    let mut i: usize = 0;
    while i < v.len()
        invariant
            i <= v.len(),
            r@.len() == i,
            forall|j: int| 0 <= j < i ==> (#[trigger] r@[j]).0@ == v@[j].0@ && r@[j].1@ == v@[j].1@,
        decreases v.len() - i,
    {
        r.push((v[i].0.clone(), v[i].1.clone()));
        i = i + 1;
    }
    assert(pair_views(r@) =~= pair_views(v@));
    r
}

/// What a runner has built: the process to start for one attempt.
#[derive(Debug)]
pub enum Launch {
    /// A program with its arguments.
    Program {
        /// Name of the task.
        name: String,
        /// Program to run.
        program: String,
        /// Its arguments.
        args: Vec<String>,
        /// Variables added to its environment.
        env: Vec<(String, String)>,
        /// Its working directory.
        cwd: Option<String>,
        /// Whether an exit code other than zero is a failure.
        fail_on_non_zero: bool,
    },
    /// A script for the shell of the host.
    Shell {
        /// Name of the task.
        name: String,
        /// The script.
        script: String,
        /// Variables added to its environment.
        env: Vec<(String, String)>,
        /// Its working directory.
        cwd: Option<String>,
        /// Whether an exit code other than zero is a failure.
        fail_on_non_zero: bool,
    },
}

/// What a [`Launch`] holds, as plain values.
pub enum LaunchView {
    Program {
        name: Seq<char>,
        program: Seq<char>,
        args: Seq<Seq<char>>,
        env: Seq<(Seq<char>, Seq<char>)>,
        cwd: Option<Seq<char>>,
        fail_on_non_zero: bool,
    },
    Shell {
        name: Seq<char>,
        script: Seq<char>,
        env: Seq<(Seq<char>, Seq<char>)>,
        cwd: Option<Seq<char>>,
        fail_on_non_zero: bool,
    },
}

impl View for Launch {
    type V = LaunchView;

    open spec fn view(&self) -> LaunchView {
        match self {
            Launch::Program { name, program, args, env, cwd, fail_on_non_zero } => {
                LaunchView::Program {
                    name: name@,
                    program: program@,
                    args: views(args@),
                    env: pair_views(env@),
                    cwd: opt_view(*cwd),
                    fail_on_non_zero: *fail_on_non_zero,
                }
            },
            Launch::Shell { name, script, env, cwd, fail_on_non_zero } => LaunchView::Shell {
                name: name@,
                script: script@,
                env: pair_views(env@),
                cwd: opt_view(*cwd),
                fail_on_non_zero: *fail_on_non_zero,
            },
        }
    }
}

/// How an attempt ended badly.
#[derive(Debug)]
pub enum TaskFailure {
    /// It failed; the restart policy decides whether it is tried again.
    Fail { reason: String },
    /// It failed for good.
    Fatal { reason: String },
    /// It was canceled.
    Canceled,
}

/// What a [`TaskFailure`] holds, as plain values.
pub enum TaskFailureView {
    Fail { reason: Seq<char> },
    Fatal { reason: Seq<char> },
    Canceled,
}

impl View for TaskFailure {
    type V = TaskFailureView;

    open spec fn view(&self) -> TaskFailureView {
        match self {
            TaskFailure::Fail { reason } => TaskFailureView::Fail { reason: reason@ },
            TaskFailure::Fatal { reason } => TaskFailureView::Fatal { reason: reason@ },
            TaskFailure::Canceled => TaskFailureView::Canceled,
        }
    }
}

/// How the process of an attempt ended.
#[derive(Debug)]
pub enum AttemptEnd {
    /// The process could not be started; the text says why.
    SpawnFailed(String),
    /// Waiting for the process failed; the text says why.
    WaitFailed(String),
    /// The process exited, with a code unless a signal ended it.
    Exited { success: bool, code: Option<i32> },
    /// The attempt was canceled and the process killed.
    Canceled,
}

/// What an [`AttemptEnd`] holds, as plain values.
pub enum AttemptEndView {
    SpawnFailed(Seq<char>),
    WaitFailed(Seq<char>),
    Exited { success: bool, code: Option<i32> },
    Canceled,
}

impl View for AttemptEnd {
    type V = AttemptEndView;

    open spec fn view(&self) -> AttemptEndView {
        match self {
            AttemptEnd::SpawnFailed(e) => AttemptEndView::SpawnFailed(e@),
            AttemptEnd::WaitFailed(e) => AttemptEndView::WaitFailed(e@),
            AttemptEnd::Exited { success, code } => AttemptEndView::Exited {
                success: *success,
                code: *code,
            },
            AttemptEnd::Canceled => AttemptEndView::Canceled,
        }
    }
}

impl LaunchView {
    /// Whether an exit code other than zero is a failure.
    pub open spec fn strict(self) -> bool {
        match self {
            LaunchView::Program { fail_on_non_zero, .. } => fail_on_non_zero,
            LaunchView::Shell { fail_on_non_zero, .. } => fail_on_non_zero,
        }
    }

    /// The outcome of an attempt that ended with `end`.
    ///
    /// A process that cannot be started or waited for is a fatal error. An
    /// unsuccessful exit is a failure where the launch is strict, and a
    /// success where it is not. A canceled attempt is canceled, whatever
    /// was launched.
    pub open spec fn outcome(self, end: AttemptEndView) -> Result<(), TaskFailureView> {
        match end {
            AttemptEndView::SpawnFailed(e) => Err(
                TaskFailureView::Fatal { reason: "spawn: "@ + e },
            ),
            AttemptEndView::WaitFailed(e) => Err(TaskFailureView::Fatal { reason: "wait: "@ + e }),
            AttemptEndView::Exited { success, code } => {
                if !success && self.strict() {
                    match code {
                        Some(c) => Err(
                            TaskFailureView::Fail {
                                reason: "exit code: "@ + decimal_of(c as int),
                            },
                        ),
                        None => Err(TaskFailureView::Fail { reason: "terminated by signal"@ }),
                    }
                } else {
                    Ok(())
                }
            },
            AttemptEndView::Canceled => Err(TaskFailureView::Canceled),
        }
    }
}

/// The view of what an attempt came to.
pub open spec fn outcome_view(r: Result<(), TaskFailure>) -> Result<(), TaskFailureView> {
    match r {
        Ok(()) => Ok(()),
        Err(e) => Err(e@),
    }
}

impl Launch {
    /// Whether an exit code other than zero is a failure.
    pub fn fail_on_non_zero(&self) -> (r: bool)
        ensures
            r == self@.strict(),
    {
        match self {
            Launch::Program { fail_on_non_zero, .. } => *fail_on_non_zero,
            Launch::Shell { fail_on_non_zero, .. } => *fail_on_non_zero,
        }
    }

    /// The outcome of an attempt whose process ended with `end`.
    pub fn outcome(&self, end: &AttemptEnd) -> (r: Result<(), TaskFailure>)
        ensures
            outcome_view(r) == self@.outcome(end@),
    {
        match end {
            AttemptEnd::SpawnFailed(e) => Err(
                TaskFailure::Fatal { reason: join("spawn: ", e.as_str()) },
            ),
            AttemptEnd::WaitFailed(e) => Err(
                TaskFailure::Fatal { reason: join("wait: ", e.as_str()) },
            ),
            AttemptEnd::Exited { success, code } => {
                if !*success && self.fail_on_non_zero() {
                    match code {
                        Some(c) => {
                            let digits = decimal(*c as i64);
                            Err(
                                TaskFailure::Fail {
                                    reason: join("exit code: ", digits.as_str()),
                                },
                            )
                        },
                        None => Err(
                            TaskFailure::Fail { reason: String::from_str("terminated by signal") },
                        ),
                    }
                } else {
                    Ok(())
                }
            },
            AttemptEnd::Canceled => Err(TaskFailure::Canceled),
        }
    }
}

/// What a [`BuildContext`] holds, as plain values: the environment.
pub type ContextView = Seq<(Seq<char>, Seq<char>)>;

/// What building comes to, as plain values: what to launch, or the
/// reason why nothing can be.
pub type BuiltView = Result<LaunchView, Seq<char>>;

/// The view of what a runner built.
pub open spec fn built_view(r: Result<Launch, RunnerError>) -> BuiltView {
    match r {
        Ok(l) => Ok(l@),
        Err(e) => Err(e@),
    }
}

/// An execution backend. A runner says which submissions it can run and
/// builds what is to be launched for one.
///
/// `claims` and `built` stand for what `supports` and `build_task`
/// return; they exist for contracts only and are never called. An
/// implementation that is not verified supplies them with bodies that do
/// not return.
pub trait Runner: Send + Sync {
    /// Whether the runner can run the submission. It depends on the runner
    /// and the submission alone.
    spec fn claims(&self, spec: CreateSpecView) -> bool;

    /// What the runner builds for the submission. It depends on the
    /// runner, the submission and the context alone.
    spec fn built(&self, spec: CreateSpecView, ctx: ContextView) -> BuiltView;

    /// Name of the runner.
    fn name(&self) -> &'static str;

    /// Whether the runner can run `spec`.
    fn supports(&self, spec: &CreateSpec) -> (r: bool)
        ensures
            r == self.claims(spec@),
    ;

    /// What is to be launched for `spec`, or why nothing can be.
    fn build_task(&self, spec: &CreateSpec, ctx: &BuildContext) -> (r: Result<Launch, RunnerError>)
        ensures
            built_view(r) == self.built(spec@, ctx@),
    ;
}

} // verus!
