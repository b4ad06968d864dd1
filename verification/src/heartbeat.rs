//! The heartbeat that announces the agent to the lighthouse.

use crate::create_spec::{CreateSpec, CreateSpecView};
use crate::kind::{TaskKind, TaskKindView};
use crate::labels::RunnerLabels;
use crate::policy::{
    AdmissionStrategy, BackoffStrategy, Factor, JitterStrategy, RestartStrategy, FACTOR_ONE_BITS,
};
use crate::runner::{outcome_view, TaskFailure, TaskFailureView};
use crate::system::host_name;
use crate::text::{join, opt_view, views};
use vstd::prelude::*;
use vstd::string::StringExecFns;

verus! {

/// Slot of the heartbeat task.
pub const HEARTBEAT_SLOT: &'static str = "tno-api-autodiscovery-heartbeat";

/// Settings of the heartbeat.
#[derive(Debug)]
pub struct DiscoveryConfig {
    /// Identifier of the agent.
    pub agent_id: String,
    /// Where the agent itself can be called.
    pub agent_endpoint: String,
    /// Where the lighthouse listens.
    pub lighthouse_endpoint: String,
    /// Time between two heartbeats, in milliseconds.
    pub heartbeat_interval_ms: u64,
    /// Time limit of one heartbeat, in milliseconds.
    pub heartbeat_timeout_ms: u64,
}

/// What a [`DiscoveryConfig`] holds, as plain values.
pub struct DiscoveryConfigView {
    pub agent_id: Seq<char>,
    pub agent_endpoint: Seq<char>,
    pub lighthouse_endpoint: Seq<char>,
    pub heartbeat_interval_ms: u64,
    pub heartbeat_timeout_ms: u64,
}

impl View for DiscoveryConfig {
    type V = DiscoveryConfigView;

    open spec fn view(&self) -> DiscoveryConfigView {
        DiscoveryConfigView {
            agent_id: self.agent_id@,
            agent_endpoint: self.agent_endpoint@,
            lighthouse_endpoint: self.lighthouse_endpoint@,
            heartbeat_interval_ms: self.heartbeat_interval_ms,
            heartbeat_timeout_ms: self.heartbeat_timeout_ms,
        }
    }
}

/// The settings of an agent on the host named `host`: local endpoints, a
/// heartbeat every thirty seconds with a limit of five. An agent whose
/// host has no name is called `unknown-agent`.
pub open spec fn settings_for(host: Option<Seq<char>>) -> DiscoveryConfigView {
    DiscoveryConfigView {
        agent_id: match host {
            Some(h) => h,
            None => "unknown-agent"@,
        },
        agent_endpoint: "http://localhost:8080"@,
        lighthouse_endpoint: "http://localhost:50051"@,
        heartbeat_interval_ms: 30_000,
        heartbeat_timeout_ms: 5_000,
    }
}

impl DiscoveryConfig {
    /// The default settings of an agent on the host named `host`.
    pub fn for_host(host: Option<String>) -> (r: Self)
        ensures
            r@ == settings_for(opt_view(host)),
    {
        DiscoveryConfig {
            agent_id: match host {
                Some(h) => h,
                None => String::from_str("unknown-agent"),
            },
            agent_endpoint: String::from_str("http://localhost:8080"),
            lighthouse_endpoint: String::from_str("http://localhost:50051"),
            heartbeat_interval_ms: 30_000,
            heartbeat_timeout_ms: 5_000,
        }
    }

    /// Every setting is accepted.
    pub fn validate(&self) -> (r: Result<(), String>)
        ensures
            r is Ok,
    {
        Ok(())
    }
}

impl Default for DiscoveryConfig {
    fn default() -> (r: Self)
        ensures
            exists|host: Option<Seq<char>>| r@ == settings_for(host),
    {
        DiscoveryConfig::for_host(host_name())
    }
}

/// The submission that runs the heartbeat: every interval, in place of a
/// run that is still going, with the timeout as its limit, and after a
/// failure with a delay between the timeout and twice the timeout.
pub open spec fn heartbeat_submission(config: DiscoveryConfigView) -> CreateSpecView {
    CreateSpecView {
        slot: HEARTBEAT_SLOT@,
        kind: TaskKindView::Internal,
        timeout_ms: config.heartbeat_timeout_ms,
        restart: RestartStrategy::Periodic { interval_ms: config.heartbeat_interval_ms },
        backoff: BackoffStrategy {
            jitter: JitterStrategy::Off,
            first_ms: config.heartbeat_timeout_ms,
            max_ms: (config.heartbeat_timeout_ms * 2) as u64,
            factor: Factor { bits: FACTOR_ONE_BITS },
        },
        admission: AdmissionStrategy::Replace,
        labels: Map::empty(),
    }
}

/// The submission that schedules the heartbeat.
pub fn heartbeat_spec(config: &DiscoveryConfig) -> (r: CreateSpec)
    requires
        config.heartbeat_timeout_ms * 2 <= u64::MAX,
    ensures
        r@ == heartbeat_submission(config@),
{
    CreateSpec {
        slot: String::from_str(HEARTBEAT_SLOT),
        timeout_ms: config.heartbeat_timeout_ms,
        restart: RestartStrategy::periodic(config.heartbeat_interval_ms),
        backoff: BackoffStrategy {
            jitter: JitterStrategy::Off,
            first_ms: config.heartbeat_timeout_ms,
            max_ms: config.heartbeat_timeout_ms * 2,
            factor: Factor::from_bits(FACTOR_ONE_BITS),
        },
        admission: AdmissionStrategy::Replace,
        kind: TaskKind::Internal,
        labels: RunnerLabels::default(),
    }
}

/// What the agent tells the lighthouse.
#[derive(Debug)]
pub struct HeartbeatRequest {
    /// Identifier of the agent.
    pub agent_id: String,
    /// Where the agent can be called.
    pub endpoint: String,
    /// When the heartbeat was sent, in seconds since the Unix epoch.
    pub timestamp: i64,
    /// How long the agent has run, in seconds.
    pub uptime_seconds: i64,
    /// What the agent can do.
    pub capabilities: Vec<String>,
}

/// What a [`HeartbeatRequest`] holds, as plain values.
pub struct HeartbeatRequestView {
    pub agent_id: Seq<char>,
    pub endpoint: Seq<char>,
    pub timestamp: i64,
    pub uptime_seconds: i64,
    pub capabilities: Seq<Seq<char>>,
}

impl View for HeartbeatRequest {
    type V = HeartbeatRequestView;

    open spec fn view(&self) -> HeartbeatRequestView {
        HeartbeatRequestView {
            agent_id: self.agent_id@,
            endpoint: self.endpoint@,
            timestamp: self.timestamp,
            uptime_seconds: self.uptime_seconds,
            capabilities: views(self.capabilities@),
        }
    }
}

/// The heartbeat of the agent at the time `now`, in seconds since the
/// Unix epoch; zero stands for a clock before the epoch.
pub fn heartbeat_request(config: &DiscoveryConfig, now: u64) -> (r: HeartbeatRequest)
    ensures
        r@ == (HeartbeatRequestView {
            agent_id: config.agent_id@,
            endpoint: config.agent_endpoint@,
            timestamp: now as i64,
            uptime_seconds: 0,
            capabilities: Seq::empty(),
        }),
{
    let r = HeartbeatRequest {
        agent_id: config.agent_id.clone(),
        endpoint: config.agent_endpoint.clone(),
        timestamp: now as i64,
        uptime_seconds: 0,
        capabilities: Vec::new(),
    };
    assert(views(r.capabilities@) =~= Seq::<Seq<char>>::empty());
    r
}

/// How sending a heartbeat ended.
#[derive(Debug)]
pub enum HeartbeatEnd {
    /// The lighthouse could not be reached; the text says why.
    ConnectFailed(String),
    /// The call failed; the text says why.
    CallFailed(String),
    /// The lighthouse answered, and acknowledged the heartbeat or not.
    Answered { acknowledged: bool },
}

/// What a [`HeartbeatEnd`] holds, as plain values.
pub enum HeartbeatEndView {
    ConnectFailed(Seq<char>),
    CallFailed(Seq<char>),
    Answered { acknowledged: bool },
}

impl View for HeartbeatEnd {
    type V = HeartbeatEndView;

    open spec fn view(&self) -> HeartbeatEndView {
        match self {
            HeartbeatEnd::ConnectFailed(e) => HeartbeatEndView::ConnectFailed(e@),
            HeartbeatEnd::CallFailed(e) => HeartbeatEndView::CallFailed(e@),
            HeartbeatEnd::Answered { acknowledged } => HeartbeatEndView::Answered {
                acknowledged: *acknowledged,
            },
        }
    }
}

/// Why a heartbeat that ended with `end` failed, if it did: only an
/// acknowledged heartbeat went through.
pub open spec fn heartbeat_error(end: HeartbeatEndView) -> Option<Seq<char>> {
    match end {
        HeartbeatEndView::ConnectFailed(e) => Some("failed to connect to lighthouse: "@ + e),
        HeartbeatEndView::CallFailed(e) => Some("heartbeat RPC failed: "@ + e),
        HeartbeatEndView::Answered { acknowledged } => if acknowledged {
            None
        } else {
            Some("lighthouse did not acknowledge heartbeat"@)
        },
    }
}

/// Whether the heartbeat that ended with `end` went through, or why not.
pub fn send_heartbeat(end: &HeartbeatEnd) -> (r: Result<(), String>)
    ensures
        match r {
            Ok(()) => heartbeat_error(end@) is None,
            Err(e) => heartbeat_error(end@) == Some(e@),
        },
{
    match end {
        HeartbeatEnd::ConnectFailed(e) => Err(
            join("failed to connect to lighthouse: ", e.as_str()),
        ),
        HeartbeatEnd::CallFailed(e) => Err(join("heartbeat RPC failed: ", e.as_str())),
        HeartbeatEnd::Answered { acknowledged } => {
            if !*acknowledged {
                return Err(String::from_str("lighthouse did not acknowledge heartbeat"));
            }
            Ok(())
        },
    }
}

/// What one run of the heartbeat task comes to. A run that was canceled
/// before it began is canceled; a heartbeat that failed is a failure that
/// says why; one that went through is a success.
pub open spec fn heartbeat_attempt(canceled: bool, end: HeartbeatEndView) -> Result<
    (),
    TaskFailureView,
> {
    if canceled {
        Err(TaskFailureView::Canceled)
    } else {
        match heartbeat_error(end) {
            None => Ok(()),
            Some(e) => Err(TaskFailureView::Fail { reason: "heartbeat failed: "@ + e }),
        }
    }
}

/// The outcome of a run of the heartbeat task: `canceled` says whether it
/// was canceled before it began, `end` how sending ended where it was
/// not.
pub fn heartbeat_outcome(canceled: bool, end: &HeartbeatEnd) -> (r: Result<(), TaskFailure>)
    ensures
        outcome_view(r) == heartbeat_attempt(canceled, end@),
{
    if canceled {
        return Err(TaskFailure::Canceled);
    }
    match send_heartbeat(end) {
        Ok(()) => Ok(()),
        Err(e) => Err(TaskFailure::Fail { reason: join("heartbeat failed: ", e.as_str()) }),
    }
}

} // verus!
