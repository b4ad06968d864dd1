//! Periodic synchronisation with the control plane: the submission that
//! schedules it, the request it sends and how the answer is judged.

use crate::create_spec::{CreateSpec, CreateSpecView};
use crate::kind::{TaskKind, TaskKindView};
use crate::labels::RunnerLabels;
use crate::policy::{
    AdmissionStrategy, BackoffStrategy, Factor, JitterStrategy, RestartStrategy, FACTOR_TWO_BITS,
};
use crate::runner::{clone_pairs, pair_views, TaskFailure, TaskFailureView};
use crate::text::{join, join3};
use vstd::prelude::*;
use vstd::string::StringExecFns;

verus! {

/// Slot of the synchronisation task.
pub const SYNC_SLOT: &'static str = "tno-discover-sync";

/// Path of the synchronisation endpoint of the control plane.
pub const SYNC_PATH: &'static str = "/api/v1/discovery/sync";

/// How the control plane is reached.
#[derive(Clone, Copy, Debug, PartialEq, Eq, Structural)]
pub enum DiscoveryTransport {
    Grpc,
    Http,
}

/// Settings of the synchronisation.
#[derive(Debug)]
pub struct DiscoverConfig {
    /// Free-form facts about the agent.
    pub metadata: Vec<(String, String)>,
    /// Where the control plane listens.
    pub control_plane_endpoint: String,
    /// How the control plane is reached.
    pub transport: DiscoveryTransport,
    /// Where the agent itself can be called.
    pub agent_endpoint: String,
    /// Name of the agent.
    pub name: String,
    /// Time between two synchronisations, in milliseconds.
    pub delay_ms: u64,
}

/// Why a synchronisation failed.
#[derive(Debug)]
pub enum DiscoverError {
    /// The control plane could not be reached.
    GrpcTransport(String),
    /// The call was answered with an error status.
    GrpcStatus(String),
    /// The HTTP request failed.
    HttpRequest(String),
    /// The answer could not be understood.
    InvalidResponse(String),
    /// The control plane refused the synchronisation.
    Rejected,
}

/// What a [`DiscoverError`] holds, as plain values.
pub enum DiscoverErrorView {
    GrpcTransport(Seq<char>),
    GrpcStatus(Seq<char>),
    HttpRequest(Seq<char>),
    InvalidResponse(Seq<char>),
    Rejected,
}

impl View for DiscoverError {
    type V = DiscoverErrorView;

    open spec fn view(&self) -> DiscoverErrorView {
        match self {
            DiscoverError::GrpcTransport(m) => DiscoverErrorView::GrpcTransport(m@),
            DiscoverError::GrpcStatus(m) => DiscoverErrorView::GrpcStatus(m@),
            DiscoverError::HttpRequest(m) => DiscoverErrorView::HttpRequest(m@),
            DiscoverError::InvalidResponse(m) => DiscoverErrorView::InvalidResponse(m@),
            DiscoverError::Rejected => DiscoverErrorView::Rejected,
        }
    }
}

impl DiscoverErrorView {
    /// The error in words.
    pub open spec fn message(self) -> Seq<char> {
        match self {
            DiscoverErrorView::GrpcTransport(m) => "failed to connect to control plane: "@ + m,
            DiscoverErrorView::GrpcStatus(m) => "grpc call failed: "@ + m,
            DiscoverErrorView::HttpRequest(m) => "http request failed: "@ + m,
            DiscoverErrorView::InvalidResponse(m) => "invalid response: "@ + m,
            DiscoverErrorView::Rejected => "control plane rejected sync"@,
        }
    }
}

impl DiscoverError {
    /// The error in words.
    pub fn message(&self) -> (r: String)
        ensures
            r@ == self@.message(),
    {
        match self {
            DiscoverError::GrpcTransport(m) => join(
                "failed to connect to control plane: ",
                m.as_str(),
            ),
            DiscoverError::GrpcStatus(m) => join("grpc call failed: ", m.as_str()),
            DiscoverError::HttpRequest(m) => join("http request failed: ", m.as_str()),
            DiscoverError::InvalidResponse(m) => join("invalid response: ", m.as_str()),
            DiscoverError::Rejected => String::from_str("control plane rejected sync"),
        }
    }

    /// The error for an answer whose body `body` could not be parsed, for
    /// the reason `why`.
    pub fn unparsable(why: &str, body: &str) -> (r: Self)
        ensures
            r@ == DiscoverErrorView::InvalidResponse(
                "failed to parse response: "@ + why@ + ", body: "@ + body@,
            ),
    {
        let head = join3("failed to parse response: ", why, ", body: ");
        DiscoverError::InvalidResponse(join(head.as_str(), body))
    }
}

/// What the agent tells the control plane of itself.
#[derive(Debug)]
pub struct SyncRequest {
    /// Identifier of the agent.
    pub id: String,
    /// Name of the agent.
    pub name: String,
    /// Where the agent can be called.
    pub endpoint: String,
    /// Operating system family.
    pub platform: String,
    /// Processor architecture.
    pub arch: String,
    /// Operating system distribution.
    pub os: String,
    /// Free-form facts about the agent.
    pub metadata: Vec<(String, String)>,
    /// When the request was sent, in seconds since the Unix epoch.
    pub ts: i64,
    /// How long the agent has run, in seconds.
    pub uptime_seconds: i64,
}

/// What a [`SyncRequest`] holds, as plain values.
pub struct SyncRequestView {
    pub id: Seq<char>,
    pub name: Seq<char>,
    pub endpoint: Seq<char>,
    pub platform: Seq<char>,
    pub arch: Seq<char>,
    pub os: Seq<char>,
    pub metadata: Seq<(Seq<char>, Seq<char>)>,
    pub ts: i64,
    pub uptime_seconds: i64,
}

impl View for SyncRequest {
    type V = SyncRequestView;

    open spec fn view(&self) -> SyncRequestView {
        SyncRequestView {
            id: self.id@,
            name: self.name@,
            endpoint: self.endpoint@,
            platform: self.platform@,
            arch: self.arch@,
            os: self.os@,
            metadata: pair_views(self.metadata@),
            ts: self.ts,
            uptime_seconds: self.uptime_seconds,
        }
    }
}

/// The answer of the control plane.
#[derive(Clone, Copy, Debug, PartialEq, Eq, Structural)]
pub struct SyncResponse {
    /// Whether the control plane accepted the synchronisation.
    pub success: bool,
}

/// What the agent knows of the machine it runs on.
#[derive(Debug)]
pub struct HostFacts {
    /// Identifier of the agent.
    pub agent_id: String,
    /// Operating system family.
    pub platform: String,
    /// Processor architecture.
    pub arch: String,
    /// Operating system distribution.
    pub os: String,
}

/// The submission that runs the synchronisation every `delay_ms`.
pub open spec fn sync_submission(delay_ms: u64) -> CreateSpecView {
    CreateSpecView {
        slot: SYNC_SLOT@,
        kind: TaskKindView::Internal,
        timeout_ms: delay_ms,
        restart: RestartStrategy::Periodic { interval_ms: delay_ms },
        backoff: BackoffStrategy {
            jitter: JitterStrategy::Equal,
            first_ms: (delay_ms / 2) as u64,
            max_ms: (delay_ms * 3) as u64,
            factor: Factor { bits: FACTOR_TWO_BITS },
        },
        admission: AdmissionStrategy::Replace,
        labels: Map::empty(),
    }
}

/// The submission that schedules the synchronisation: every `delay_ms`, in
/// place of a run that is still going, with a time limit of `delay_ms`,
/// and after a failure with a delay between half of `delay_ms` and three
/// times `delay_ms`.
pub fn sync_spec(config: &DiscoverConfig) -> (r: CreateSpec)
    requires
        config.delay_ms * 3 <= u64::MAX,
    ensures
        r@ == sync_submission(config.delay_ms),
{
    let delay_ms: u64 = config.delay_ms;
    let factor = Factor::from_bits(FACTOR_TWO_BITS);
    CreateSpec {
        slot: String::from_str(SYNC_SLOT),
        kind: TaskKind::Internal,
        timeout_ms: delay_ms,
        restart: RestartStrategy::periodic(delay_ms),
        backoff: BackoffStrategy {
            jitter: JitterStrategy::Equal,
            first_ms: delay_ms / 2,
            max_ms: delay_ms * 3,
            factor,
        },
        admission: AdmissionStrategy::Replace,
        labels: RunnerLabels::default(),
    }
}

/// The backoff of the synchronisation is well formed from a delay of two
/// milliseconds on.
pub proof fn lemma_sync_backoff_valid(delay_ms: u64)
    requires
        delay_ms * 3 <= u64::MAX,
    ensures
        sync_submission(delay_ms).backoff.valid() <==> delay_ms >= 2,
{
}

/// Where the synchronisation request goes over HTTP.
pub fn sync_url(config: &DiscoverConfig) -> (r: String)
    ensures
        r@ == config.control_plane_endpoint@ + SYNC_PATH@,
{
    join(config.control_plane_endpoint.as_str(), SYNC_PATH)
}

/// The request without its time stamps: what does not change from one
/// synchronisation to the next.
pub fn build_base_request(cfg: &DiscoverConfig, host: &HostFacts) -> (r: SyncRequest)
    ensures
        r@ == (SyncRequestView {
            id: host.agent_id@,
            name: cfg.name@,
            endpoint: cfg.agent_endpoint@,
            platform: host.platform@,
            arch: host.arch@,
            os: host.os@,
            metadata: pair_views(cfg.metadata@),
            ts: 0,
            uptime_seconds: 0,
        }),
{
    SyncRequest {
        id: host.agent_id.clone(),
        name: cfg.name.clone(),
        endpoint: cfg.agent_endpoint.clone(),
        platform: host.platform.clone(),
        arch: host.arch.clone(),
        os: host.os.clone(),
        metadata: clone_pairs(&cfg.metadata),
        ts: 0,
        uptime_seconds: 0,
    }
}

/// `base` stamped with the time `now` and the uptime `uptime`, both in
/// seconds.
pub fn stamp_request(base: &SyncRequest, now: u64, uptime: u64) -> (r: SyncRequest)
    ensures
        r@ == (SyncRequestView { ts: now as i64, uptime_seconds: uptime as i64, ..base@ }),
{
    SyncRequest {
        id: base.id.clone(),
        name: base.name.clone(),
        endpoint: base.endpoint.clone(),
        platform: base.platform.clone(),
        arch: base.arch.clone(),
        os: base.os.clone(),
        metadata: clone_pairs(&base.metadata),
        ts: now as i64,
        uptime_seconds: uptime as i64,
    }
}

/// An answer is good exactly when it reports success.
pub fn validate_response(response: SyncResponse) -> (r: Result<(), DiscoverError>)
    ensures
        response.success ==> r is Ok,
        !response.success ==> r is Err && r->Err_0@ == DiscoverErrorView::Rejected,
{
    if !response.success {
        return Err(DiscoverError::Rejected);
    }
    Ok(())
}

/// What one run of the synchronisation task comes to. A run that was
/// canceled before it began is canceled; a synchronisation that failed is
/// a failure that says why; one that went through is a success.
pub open spec fn sync_attempt(canceled: bool, result: Result<(), DiscoverErrorView>) -> Result<
    (),
    TaskFailureView,
> {
    if canceled {
        Err(TaskFailureView::Canceled)
    } else {
        match result {
            Ok(()) => Ok(()),
            Err(e) => Err(TaskFailureView::Fail { reason: "sync failed: "@ + e.message() }),
        }
    }
}

/// The outcome of a run that was canceled before it sent anything.
pub fn sync_canceled() -> (r: Result<(), TaskFailure>)
    ensures
        r is Err && r->Err_0@ == TaskFailureView::Canceled,
{
    Err(TaskFailure::Canceled)
}

/// The outcome of a run whose synchronisation ended with `result`.
pub fn sync_outcome(result: Result<(), DiscoverError>) -> (r: Result<(), TaskFailure>)
    ensures
        crate::runner::outcome_view(r) == sync_attempt(
            false,
            match result {
                Ok(()) => Ok(()),
                Err(e) => Err(e@),
            },
        ),
{
    match result {
        Ok(()) => Ok(()),
        Err(e) => {
            let why = e.message();
            Err(TaskFailure::Fail { reason: join("sync failed: ", why.as_str()) })
        },
    }
}

} // verus!
