//! The router: an ordered list of runners, of which the first that claims
//! a submission builds it.

use crate::create_spec::{CreateSpec, CreateSpecView};
use crate::runner::{BuildContext, Launch, LaunchView, Runner, RunnerError};
use crate::text::join;
use std::sync::Arc;
use vstd::prelude::*;
use vstd::string::StringExecFns;

verus! {

/// Errors of the supervision core.
#[derive(Debug)]
pub enum CoreError {
    /// No registered runner claims the kind of the submission.
    NoRunner(String),
    /// The runner that claimed the submission could not build it.
    Runner(RunnerError),
    /// The supervisor refused the submission.
    Supervisor(String),
}

/// What a [`CoreError`] holds, as plain values.
pub enum CoreErrorView {
    NoRunner(Seq<char>),
    Runner(Seq<char>),
    Supervisor(Seq<char>),
}

impl View for CoreError {
    type V = CoreErrorView;

    open spec fn view(&self) -> CoreErrorView {
        match self {
            CoreError::NoRunner(k) => CoreErrorView::NoRunner(k@),
            CoreError::Runner(e) => CoreErrorView::Runner(e@),
            CoreError::Supervisor(m) => CoreErrorView::Supervisor(m@),
        }
    }
}

impl CoreErrorView {
    /// The error in words.
    pub open spec fn message(self) -> Seq<char> {
        match self {
            CoreErrorView::NoRunner(k) => "no runner for kind: "@ + k,
            CoreErrorView::Runner(m) => "runner error: invalid spec: "@ + m,
            CoreErrorView::Supervisor(m) => "supervisor error: "@ + m,
        }
    }
}

impl CoreError {
    /// The error in words.
    pub fn message(&self) -> (r: String)
        ensures
            r@ == self@.message(),
    {
        match self {
            CoreError::NoRunner(k) => join("no runner for kind: ", k.as_str()),
            CoreError::Runner(e) => {
                let inner = e.message();
                let r = join("runner error: ", inner.as_str());
                assert(r@ =~= "runner error: invalid spec: "@ + e@) by {
                    reveal_strlit("runner error: ");
                    reveal_strlit("invalid spec: ");
                    reveal_strlit("runner error: invalid spec: ");
                }
                r
            },
            CoreError::Supervisor(m) => join("supervisor error: ", m.as_str()),
        }
    }
}

impl From<RunnerError> for CoreError {
    fn from(e: RunnerError) -> (r: Self)
        ensures
            r@ == CoreErrorView::Runner(e@),
    {
        CoreError::Runner(e)
    }
}

impl vstd::std_specs::convert::FromSpecImpl<RunnerError> for CoreError {
    open spec fn obeys_from_spec() -> bool {
        true
    }

    open spec fn from_spec(e: RunnerError) -> Self {
        CoreError::Runner(e)
    }
}

/// Index of the first of `runners`, from `i` on, that claims `spec`.
pub open spec fn first_claiming(runners: Seq<Arc<dyn Runner>>, spec: CreateSpecView, i: int)
    -> Option<int>
    decreases runners.len() - i,
{
    if i < 0 || i >= runners.len() {
        None
    } else if runners[i].claims(spec) {
        Some(i)
    } else {
        first_claiming(runners, spec, i + 1)
    }
}

/// What the search for a runner finds: a runner that claims the
/// submission and has none before it that does, or nothing where no
/// runner claims it.
pub proof fn lemma_first_claiming(runners: Seq<Arc<dyn Runner>>, spec: CreateSpecView, i: int)
    requires
        0 <= i <= runners.len(),
    ensures
        match first_claiming(runners, spec, i) {
            Some(k) => i <= k < runners.len() && runners[k].claims(spec) && forall|j: int|
                i <= j < k ==> !(#[trigger] runners[j]).claims(spec),
            None => forall|j: int| i <= j < runners.len() ==> !(#[trigger] runners[j]).claims(spec),
        },
    decreases runners.len() - i,
{
    if i < runners.len() && !runners[i].claims(spec) {
        lemma_first_claiming(runners, spec, i + 1);
    }
}

/// The view of what the router built.
pub open spec fn routed_view(r: Result<Launch, CoreError>) -> Result<LaunchView, CoreErrorView> {
    match r {
        Ok(l) => Ok(l@),
        Err(e) => Err(e@),
    }
}

/// `list` with `item` behind it.
pub open spec fn appended<T: ?Sized>(item: Arc<T>, list: Seq<Arc<T>>) -> Seq<Arc<T>> {
    list.push(item)
}

/// Puts `item` behind `list`.
fn append<T: ?Sized>(item: Arc<T>, list: &mut Vec<Arc<T>>)
    ensures
        final(list)@ == appended(item, old(list)@),
{
    list.push(item);
}

/// Runners in the order in which they were registered.
pub struct RunnerRouter {
    runners: Vec<Arc<dyn Runner>>,
    ctx: BuildContext,
}

impl RunnerRouter {
    /// The registered runners, first registered first.
    pub closed spec fn runners(&self) -> Seq<Arc<dyn Runner>> {
        self.runners@
    }

    /// The context handed to the runner that builds.
    pub closed spec fn context(&self) -> Seq<(Seq<char>, Seq<char>)> {
        self.ctx@
    }

    /// Index of the runner that gets `spec`: the first that claims it.
    pub open spec fn choice(&self, spec: CreateSpecView) -> Option<int> {
        first_claiming(self.runners(), spec, 0)
    }

    /// What building `spec` comes to: the chosen runner's result, or an
    /// error that names the kind where no runner claims it.
    pub open spec fn route(&self, spec: CreateSpecView) -> Result<LaunchView, CoreErrorView> {
        match self.choice(spec) {
            Some(i) => match self.runners()[i].built(spec, self.context()) {
                Ok(l) => Ok(l),
                Err(e) => Err(CoreErrorView::Runner(e)),
            },
            None => Err(CoreErrorView::NoRunner(spec.kind.label())),
        }
    }

    /// A router without runners, with the default context.
    pub fn new() -> (r: Self)
        ensures
            r.runners() == Seq::<Arc<dyn Runner>>::empty(),
            r.context() == Seq::<(Seq<char>, Seq<char>)>::empty(),
    {
        RunnerRouter { runners: Vec::new(), ctx: BuildContext::default() }
    }

    /// The same router with the context `ctx`.
    pub fn with_context(self, ctx: BuildContext) -> (r: Self)
        ensures
            r.runners() == self.runners(),
            r.context() == ctx@,
    {
        RunnerRouter { runners: self.runners, ctx }
    }

    /// Registers `runner` behind the runners already there.
    pub fn register(&mut self, runner: Arc<dyn Runner>)
        ensures
            final(self).runners() == appended(runner, old(self).runners()),
            final(self).context() == old(self).context(),
    {
        append(runner, &mut self.runners);
    }

    /// Position of the first runner that claims `spec`.
    fn pick_index(&self, spec: &CreateSpec) -> (r: Option<usize>)
        ensures
            match r {
                Some(i) => self.choice(spec@) == Some(i as int) && i < self.runners().len(),
                None => self.choice(spec@) is None,
            },
    {
        let mut i: usize = 0;
        while i < self.runners.len()
            invariant
                i <= self.runners@.len(),
                first_claiming(self.runners@, spec@, 0) == first_claiming(
                    self.runners@,
                    spec@,
                    i as int,
                ),
            decreases self.runners@.len() - i,
        {
            if self.runners[i].supports(spec) {
                return Some(i);
            }
            i = i + 1;
        }
        None
    }

    /// The first registered runner that claims `spec`.
    pub fn pick(&self, spec: &CreateSpec) -> (r: Option<&Arc<dyn Runner>>)
        ensures
            match r {
                Some(runner) => self.choice(spec@) is Some && *runner == self.runners()[self.choice(
                    spec@,
                )->0],
                None => self.choice(spec@) is None,
            },
    {
        match self.pick_index(spec) {
            Some(i) => Some(&self.runners[i]),
            None => None,
        }
    }

    /// Builds `spec` with the first runner that claims it.
    pub fn build(&self, spec: &CreateSpec) -> (r: Result<Launch, CoreError>)
        ensures
            routed_view(r) == self.route(spec@),
    {
        match self.pick_index(spec) {
            Some(i) => {
                match self.runners[i].build_task(spec, &self.ctx) {
                    Ok(task) => Ok(task),
                    Err(e) => Err(CoreError::from(e)),
                }
            },
            None => Err(CoreError::NoRunner(String::from_str(spec.kind.kind()))),
        }
    }
}

impl Default for RunnerRouter {
    fn default() -> (r: Self)
        ensures
            r.runners() == Seq::<Arc<dyn Runner>>::empty(),
            r.context() == Seq::<(Seq<char>, Seq<char>)>::empty(),
    {
        RunnerRouter::new()
    }
}

} // verus!
