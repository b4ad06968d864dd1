//! From the messages of the RPC transport to the data model and back.
//! Nothing becomes a value of the model before it has been validated.

use crate::api::{invalid, ApiError, ApiErrorView};
use crate::create_spec::{CreateSpec, CreateSpecView};
use crate::env::{pairs, KeyValue, TaskEnv};
use crate::info::{TaskInfo, TaskInfoView};
use crate::kind::{Flag, TaskKind, TaskKindView};
use crate::labels::{as_map, RunnerLabels};
use crate::policy::{AdmissionStrategy, BackoffStrategy, JitterStrategy, RestartStrategy};
use crate::runner::pair_views;
use crate::status::TaskStatus;
use crate::text::{blank, is_blank, views};
use crate::wire::{
    ContainerTask, SubprocessTask, WasmTask, WireAdmission, WireBackoff,
    WireCreateSpec, WireCreateSpecView, WireJitter, WireKind, WireKindView, WireRestart,
    WireStatus, WireTaskInfo, WireTaskInfoView, WireTaskKind,
};
use vstd::prelude::*;
use vstd::string::StringExecFns;

verus! {

/// The wire status of a status.
pub open spec fn wire_of_status(status: TaskStatus) -> WireStatus {
    match status {
        TaskStatus::Pending => WireStatus::Pending,
        TaskStatus::Running => WireStatus::Running,
        TaskStatus::Succeeded => WireStatus::Succeeded,
        TaskStatus::Failed => WireStatus::Failed,
        TaskStatus::Timeout => WireStatus::Timeout,
        TaskStatus::Canceled => WireStatus::Canceled,
        TaskStatus::Exhausted => WireStatus::Exhausted,
    }
}

impl WireStatus {
    /// The wire status of `status`.
    pub fn from(status: TaskStatus) -> (r: Self)
        ensures
            r == wire_of_status(status),
    {
        match status {
            TaskStatus::Pending => WireStatus::Pending,
            TaskStatus::Running => WireStatus::Running,
            TaskStatus::Succeeded => WireStatus::Succeeded,
            TaskStatus::Failed => WireStatus::Failed,
            TaskStatus::Timeout => WireStatus::Timeout,
            TaskStatus::Canceled => WireStatus::Canceled,
            TaskStatus::Exhausted => WireStatus::Exhausted,
        }
    }
}

/// A status survives the wire: the number it is sent as is read back as
/// the same status.
pub proof fn lemma_status_roundtrip(status: TaskStatus)
    ensures
        crate::api::status_decoded(wire_of_status(status).number()) == Ok::<
            TaskStatus,
            ApiErrorView,
        >(status),
{
}

/// The snapshot as it is sent: the status as its number, the times as
/// signed seconds.
pub open spec fn info_sent(info: TaskInfoView) -> WireTaskInfoView {
    WireTaskInfoView {
        id: info.id,
        slot: info.slot,
        status: wire_of_status(info.status).number(),
        attempt: info.attempt,
        created_at: info.created_at as i64,
        updated_at: info.updated_at as i64,
        error: info.error,
    }
}

impl WireTaskInfo {
    /// The snapshot `info` as it is sent.
    pub fn from(info: TaskInfo) -> (r: Self)
        ensures
            r@ == info_sent(info@),
    {
        WireTaskInfo {
            id: info.id.to_string(),
            slot: info.slot,
            status: WireStatus::from(info.status).code(),
            attempt: info.attempt,
            created_at: info.created_at as i64,
            updated_at: info.updated_at as i64,
            error: info.error,
        }
    }
}

/// The view of a value of the model that was built from a message, or of
/// why it was not.
pub open spec fn built<T: View>(r: Result<T, ApiError>) -> Result<T::V, ApiErrorView> {
    match r {
        Ok(v) => Ok(v@),
        Err(e) => Err(e@),
    }
}

/// The view of a plain value that was read from a message, or of why it
/// was not.
pub open spec fn read<T>(r: Result<T, ApiError>) -> Result<T, ApiErrorView> {
    match r {
        Ok(v) => Ok(v),
        Err(e) => Err(e@),
    }
}

/// What a submitted kind comes to: the same kind, where the field that
/// names what to run is not blank. A container without a command runs the
/// entry point of its image.
pub open spec fn kind_of(kind: WireKindView) -> Result<TaskKindView, ApiErrorView> {
    match kind {
        WireKindView::Subprocess { command, args, env, cwd, fail_on_non_zero } => {
            if blank(command) {
                invalid("subprocess command is empty"@)
            } else {
                Ok(TaskKindView::Subprocess { command, args, env, cwd, fail_on_non_zero })
            }
        },
        WireKindView::Wasm { module, args, env } => {
            if blank(module) {
                invalid("wasm module path is empty"@)
            } else {
                Ok(TaskKindView::Wasm { module, args, env })
            }
        },
        WireKindView::Container { image, command, args, env } => {
            if blank(image) {
                invalid("container image is empty"@)
            } else {
                Ok(
                    TaskKindView::Container {
                        image,
                        command: if command.len() == 0 {
                            None
                        } else {
                            Some(command)
                        },
                        args,
                        env,
                    },
                )
            }
        },
    }
}

/// The kind that the message `kind` asks for.
pub fn convert_task_kind(kind: WireKind) -> (r: Result<TaskKind, ApiError>)
    ensures
        built(r) == kind_of(kind@),
{
    match kind {
        WireKind::Subprocess(sub) => {
            if is_blank(sub.command.as_str()) {
                return Err(
                    ApiError::InvalidRequest(String::from_str("subprocess command is empty")),
                );
            }
            Ok(
                TaskKind::Subprocess {
                    command: sub.command,
                    args: sub.args,
                    env: convert_env(sub.env),
                    cwd: sub.cwd,
                    fail_on_non_zero: Flag::from(sub.fail_on_non_zero),
                },
            )
        },
        WireKind::Wasm(wasm) => {
            if is_blank(wasm.module.as_str()) {
                return Err(ApiError::InvalidRequest(String::from_str("wasm module path is empty")));
            }
            Ok(TaskKind::Wasm { module: wasm.module, args: wasm.args, env: convert_env(wasm.env) })
        },
        WireKind::Container(cont) => {
            if is_blank(cont.image.as_str()) {
                return Err(ApiError::InvalidRequest(String::from_str("container image is empty")));
            }
            let command = if cont.command.len() == 0 {
                None
            } else {
                Some(cont.command)
            };
            Ok(
                TaskKind::Container {
                    image: cont.image,
                    command,
                    args: cont.args,
                    env: convert_env(cont.env),
                },
            )
        },
    }
}

/// The environment with the entries `kvs`, in their order.
pub fn convert_env(kvs: Vec<KeyValue>) -> (r: TaskEnv)
    ensures
        r@ == pairs(kvs@),
{
    TaskEnv(kvs)
}

/// What a submitted restart strategy comes to; only `Always` takes the
/// interval.
pub open spec fn restart_of(strategy: WireRestart, interval_ms: Option<u64>) -> Result<
    RestartStrategy,
    ApiErrorView,
> {
    match strategy {
        WireRestart::Never => Ok(RestartStrategy::Never),
        WireRestart::OnFailure => Ok(RestartStrategy::OnFailure),
        WireRestart::Always => Ok(RestartStrategy::Always { interval_ms }),
        WireRestart::Unspecified => invalid("restart strategy not specified"@),
    }
}

/// The restart strategy that the message asks for.
pub fn convert_restart_strategy(strategy: WireRestart, interval_ms: Option<u64>) -> (r: Result<
    RestartStrategy,
    ApiError,
>)
    ensures
        read(r) == restart_of(strategy, interval_ms),
{
    match strategy {
        WireRestart::Never => Ok(RestartStrategy::Never),
        WireRestart::OnFailure => Ok(RestartStrategy::OnFailure),
        WireRestart::Always => Ok(RestartStrategy::Always { interval_ms }),
        WireRestart::Unspecified => Err(
            ApiError::InvalidRequest(String::from_str("restart strategy not specified")),
        ),
    }
}

/// The jitter strategy that a wire strategy stands for; the unspecified
/// one stands for none.
pub open spec fn jitter_of(jitter: WireJitter) -> Option<JitterStrategy> {
    match jitter {
        WireJitter::Off => Some(JitterStrategy::Off),
        WireJitter::Full => Some(JitterStrategy::Full),
        WireJitter::Equal => Some(JitterStrategy::Equal),
        WireJitter::Decorrelated => Some(JitterStrategy::Decorrelated),
        WireJitter::Unspecified => None,
    }
}

/// What submitted backoff parameters come to: the same parameters, where
/// the jitter is a known one and both delays and the factor are greater
/// than zero. The first rule broken, in this order, is the one reported.
pub open spec fn backoff_of(backoff: WireBackoff) -> Result<BackoffStrategy, ApiErrorView> {
    match WireJitter::of_number(backoff.jitter) {
        None => invalid("invalid jitter strategy"@),
        Some(j) => match jitter_of(j) {
            None => invalid("jitter strategy not specified"@),
            Some(jitter) => {
                if backoff.first_ms == 0 {
                    invalid("backoff first_ms cannot be zero"@)
                } else if backoff.max_ms == 0 {
                    invalid("backoff max_ms cannot be zero"@)
                } else if !backoff.factor.positive() {
                    invalid("backoff factor must be positive"@)
                } else {
                    Ok(
                        BackoffStrategy {
                            jitter,
                            first_ms: backoff.first_ms,
                            max_ms: backoff.max_ms,
                            factor: backoff.factor,
                        },
                    )
                }
            },
        },
    }
}

/// The backoff strategy that the message asks for.
pub fn convert_backoff_strategy(backoff: WireBackoff) -> (r: Result<BackoffStrategy, ApiError>)
    ensures
        read(r) == backoff_of(backoff),
{
    let jitter = match WireJitter::from_code(backoff.jitter) {
        Some(j) => j,
        None => {
            return Err(ApiError::InvalidRequest(String::from_str("invalid jitter strategy")));
        },
    };
    let jitter = match jitter {
        WireJitter::Off => JitterStrategy::Off,
        WireJitter::Full => JitterStrategy::Full,
        WireJitter::Equal => JitterStrategy::Equal,
        WireJitter::Decorrelated => JitterStrategy::Decorrelated,
        WireJitter::Unspecified => {
            return Err(
                ApiError::InvalidRequest(String::from_str("jitter strategy not specified")),
            );
        },
    };
    if backoff.first_ms == 0 {
        return Err(ApiError::InvalidRequest(String::from_str("backoff first_ms cannot be zero")));
    }
    if backoff.max_ms == 0 {
        return Err(ApiError::InvalidRequest(String::from_str("backoff max_ms cannot be zero")));
    }
    if !backoff.factor.is_positive() {
        return Err(ApiError::InvalidRequest(String::from_str("backoff factor must be positive")));
    }
    Ok(
        BackoffStrategy {
            jitter,
            first_ms: backoff.first_ms,
            max_ms: backoff.max_ms,
            factor: backoff.factor,
        },
    )
}

/// What a submitted admission strategy comes to.
pub open spec fn admission_of(strategy: WireAdmission) -> Result<AdmissionStrategy, ApiErrorView> {
    match strategy {
        WireAdmission::DropIfRunning => Ok(AdmissionStrategy::DropIfRunning),
        WireAdmission::Replace => Ok(AdmissionStrategy::Replace),
        WireAdmission::Queue => Ok(AdmissionStrategy::Queue),
        WireAdmission::Unspecified => invalid("admission strategy not specified"@),
    }
}

/// The admission strategy that the message asks for.
pub fn convert_admission_strategy(strategy: WireAdmission) -> (r: Result<
    AdmissionStrategy,
    ApiError,
>)
    ensures
        read(r) == admission_of(strategy),
{
    match strategy {
        WireAdmission::DropIfRunning => Ok(AdmissionStrategy::DropIfRunning),
        WireAdmission::Replace => Ok(AdmissionStrategy::Replace),
        WireAdmission::Queue => Ok(AdmissionStrategy::Queue),
        WireAdmission::Unspecified => Err(
            ApiError::InvalidRequest(String::from_str("admission strategy not specified")),
        ),
    }
}

/// The labels with the entries `map`; of two entries with one key the
/// later counts.
pub fn convert_labels(map: Vec<(String, String)>) -> (r: RunnerLabels)
    ensures
        r@ == as_map(pair_views(map@)),
{
    let mut labels = RunnerLabels::new();
    let mut i: usize = 0;
    while i < map.len()
        invariant
            i <= map@.len(),
            labels@ == as_map(pair_views(map@).take(i as int)),
        decreases map@.len() - i,
    {
        labels.insert(map[i].0.as_str(), map[i].1.as_str());
        i = i + 1;
        assert(pair_views(map@).take(i as int).drop_last() == pair_views(map@).take(i - 1));
    }
    assert(pair_views(map@).take(i as int) == pair_views(map@));
    labels
}

/// What a submitted slot comes to: itself, unless it is blank.
pub open spec fn slot_of(slot: Seq<char>) -> Result<Seq<char>, ApiErrorView> {
    if blank(slot) {
        invalid("slot cannot be empty"@)
    } else {
        Ok(slot)
    }
}

/// The slot `slot`, which must not be blank.
pub fn validate_slot(slot: String) -> (r: Result<String, ApiError>)
    ensures
        built(r) == slot_of(slot@),
{
    if is_blank(slot.as_str()) {
        return Err(ApiError::InvalidRequest(String::from_str("slot cannot be empty")));
    }
    Ok(slot)
}

/// What a submitted timeout comes to: itself, unless it is zero.
pub open spec fn timeout_of(timeout_ms: u64) -> Result<u64, ApiErrorView> {
    if timeout_ms == 0 {
        invalid("timeout_ms cannot be zero"@)
    } else {
        Ok(timeout_ms)
    }
}

/// The timeout `timeout_ms`, which must not be zero.
pub fn validate_timeout(timeout_ms: u64) -> (r: Result<u64, ApiError>)
    ensures
        read(r) == timeout_of(timeout_ms),
{
    if timeout_ms == 0 {
        return Err(ApiError::InvalidRequest(String::from_str("timeout_ms cannot be zero")));
    }
    Ok(timeout_ms)
}

/// The kind of a submission: it must be there, with its variant.
pub open spec fn kind_decoded(kind: Option<Option<WireKindView>>) -> Result<
    TaskKindView,
    ApiErrorView,
> {
    match kind {
        None => invalid("missing task kind"@),
        Some(None) => invalid("missing task kind variant"@),
        Some(Some(k)) => kind_of(k),
    }
}

/// The restart strategy of a submission: its number must stand for one.
pub open spec fn restart_decoded(code: i32, interval_ms: Option<u64>) -> Result<
    RestartStrategy,
    ApiErrorView,
> {
    match WireRestart::of_number(code) {
        None => invalid("invalid restart strategy"@),
        Some(s) => restart_of(s, interval_ms),
    }
}

/// The backoff strategy of a submission: it must be there.
pub open spec fn backoff_decoded(backoff: Option<WireBackoff>) -> Result<
    BackoffStrategy,
    ApiErrorView,
> {
    match backoff {
        None => invalid("missing backoff strategy"@),
        Some(b) => backoff_of(b),
    }
}

/// The admission strategy of a submission: its number must stand for one.
pub open spec fn admission_decoded(code: i32) -> Result<AdmissionStrategy, ApiErrorView> {
    match WireAdmission::of_number(code) {
        None => invalid("invalid admission strategy"@),
        Some(s) => admission_of(s),
    }
}

/// What a submission comes to. Its parts are checked in this order: the
/// kind, the restart strategy, the presence of the backoff, the slot, the
/// timeout, the backoff parameters, the admission strategy. The first
/// part that breaks a rule decides the error; where none does, the
/// submission is taken over as it is.
pub open spec fn decoded(w: WireCreateSpecView) -> Result<CreateSpecView, ApiErrorView> {
    let kind = kind_decoded(w.kind);
    let restart = restart_decoded(w.restart, w.restart_interval_ms);
    let backoff = backoff_decoded(w.backoff);
    let slot = slot_of(w.slot);
    let timeout = timeout_of(w.timeout_ms);
    let admission = admission_decoded(w.admission);
    if kind is Err {
        Err(kind->Err_0)
    } else if restart is Err {
        Err(restart->Err_0)
    } else if w.backoff is None {
        invalid("missing backoff strategy"@)
    } else if slot is Err {
        Err(slot->Err_0)
    } else if timeout is Err {
        Err(timeout->Err_0)
    } else if backoff is Err {
        Err(backoff->Err_0)
    } else if admission is Err {
        Err(admission->Err_0)
    } else {
        Ok(
            CreateSpecView {
                slot: w.slot,
                kind: kind->Ok_0,
                timeout_ms: w.timeout_ms,
                restart: restart->Ok_0,
                backoff: backoff->Ok_0,
                admission: admission->Ok_0,
                labels: as_map(w.labels),
            },
        )
    }
}

/// A submission is accepted exactly when every part of it keeps its rule.
pub proof fn lemma_decoded_ok(w: WireCreateSpecView)
    ensures
        decoded(w) is Ok <==> {
            &&& kind_decoded(w.kind) is Ok
            &&& restart_decoded(w.restart, w.restart_interval_ms) is Ok
            &&& backoff_decoded(w.backoff) is Ok
            &&& !blank(w.slot)
            &&& w.timeout_ms > 0
            &&& admission_decoded(w.admission) is Ok
        },
{
}

/// Whatever is accepted is a valid submission, and every refusal is an
/// invalid request.
pub proof fn lemma_decoded_valid(w: WireCreateSpecView)
    ensures
        decoded(w) matches Ok(spec) ==> spec.valid(),
        decoded(w) matches Err(e) ==> e is InvalidRequest,
{
}

impl CreateSpec {
    /// The submission that the message `spec` asks for.
    pub fn try_from(spec: WireCreateSpec) -> (r: Result<CreateSpec, ApiError>)
        ensures
            built(r) == decoded(spec@),
    {
        let WireCreateSpec {
            slot,
            kind,
            timeout_ms,
            restart,
            restart_interval_ms,
            backoff,
            admission,
            labels,
        } = spec;
        let kind = match kind {
            Some(k) => match k.kind {
                Some(v) => v,
                None => {
                    return Err(
                        ApiError::InvalidRequest(String::from_str("missing task kind variant")),
                    );
                },
            },
            None => {
                return Err(ApiError::InvalidRequest(String::from_str("missing task kind")));
            },
        };
        let task_kind = match convert_task_kind(kind) {
            Ok(k) => k,
            Err(e) => {
                return Err(e);
            },
        };
        let restart = match WireRestart::from_code(restart) {
            Some(s) => s,
            None => {
                return Err(ApiError::InvalidRequest(String::from_str("invalid restart strategy")));
            },
        };
        let restart = match convert_restart_strategy(restart, restart_interval_ms) {
            Ok(s) => s,
            Err(e) => {
                return Err(e);
            },
        };
        let backoff = match backoff {
            Some(b) => b,
            None => {
                return Err(ApiError::InvalidRequest(String::from_str("missing backoff strategy")));
            },
        };
        let slot = match validate_slot(slot) {
            Ok(s) => s,
            Err(e) => {
                return Err(e);
            },
        };
        let timeout_ms = match validate_timeout(timeout_ms) {
            Ok(t) => t,
            Err(e) => {
                return Err(e);
            },
        };
        let backoff = match convert_backoff_strategy(backoff) {
            Ok(b) => b,
            Err(e) => {
                return Err(e);
            },
        };
        let admission = match WireAdmission::from_code(admission) {
            Some(s) => s,
            None => {
                return Err(
                    ApiError::InvalidRequest(String::from_str("invalid admission strategy")),
                );
            },
        };
        let admission = match convert_admission_strategy(admission) {
            Ok(a) => a,
            Err(e) => {
                return Err(e);
            },
        };
        Ok(
            CreateSpec {
                slot,
                kind: task_kind,
                timeout_ms,
                restart,
                backoff,
                admission,
                labels: convert_labels(labels),
            },
        )
    }
}

/// The wire strategy of a jitter strategy.
pub open spec fn wire_of_jitter(jitter: JitterStrategy) -> WireJitter {
    match jitter {
        JitterStrategy::Off => WireJitter::Off,
        JitterStrategy::Full => WireJitter::Full,
        JitterStrategy::Equal => WireJitter::Equal,
        JitterStrategy::Decorrelated => WireJitter::Decorrelated,
    }
}

/// The wire strategy of an admission strategy.
pub open spec fn wire_of_admission(admission: AdmissionStrategy) -> WireAdmission {
    match admission {
        AdmissionStrategy::DropIfRunning => WireAdmission::DropIfRunning,
        AdmissionStrategy::Replace => WireAdmission::Replace,
        AdmissionStrategy::Queue => WireAdmission::Queue,
    }
}

/// What the wire can say of a submission: a kind that a backend runs, a
/// restart strategy other than the periodic one, and for a container
/// either no command or one that is not empty.
pub open spec fn sendable(spec: CreateSpecView) -> bool {
    &&& !(spec.kind is Internal)
    &&& !(spec.restart is Periodic)
    &&& spec.kind matches TaskKindView::Container { command, .. } ==> !(command matches Some(c)
        && c.len() == 0)
}

/// The kind as it is sent.
pub open spec fn kind_sent(kind: TaskKindView) -> WireKindView
    recommends
        !(kind is Internal),
{
    match kind {
        TaskKindView::Subprocess { command, args, env, cwd, fail_on_non_zero } => {
            WireKindView::Subprocess { command, args, env, cwd, fail_on_non_zero }
        },
        TaskKindView::Wasm { module, args, env } => WireKindView::Wasm { module, args, env },
        TaskKindView::Container { image, command, args, env } => WireKindView::Container {
            image,
            command: match command {
                Some(c) => c,
                None => Seq::empty(),
            },
            args,
            env,
        },
        TaskKindView::Internal => arbitrary(),
    }
}

/// Whether a message says the same as the submission `spec`: every part
/// is sent as it is, the strategies as their numbers, and the labels as
/// any list of entries that stands for them.
pub open spec fn says(w: WireCreateSpecView, spec: CreateSpecView) -> bool {
    &&& w.slot == spec.slot
    &&& w.kind == Some(Some(kind_sent(spec.kind)))
    &&& w.timeout_ms == spec.timeout_ms
    &&& w.restart == match spec.restart {
        RestartStrategy::Never => WireRestart::Never.number(),
        RestartStrategy::OnFailure => WireRestart::OnFailure.number(),
        _ => WireRestart::Always.number(),
    }
    &&& w.restart_interval_ms == match spec.restart {
        RestartStrategy::Always { interval_ms } => interval_ms,
        _ => None,
    }
    &&& w.backoff == Some(
        WireBackoff {
            jitter: wire_of_jitter(spec.backoff.jitter).number(),
            first_ms: spec.backoff.first_ms,
            max_ms: spec.backoff.max_ms,
            factor: spec.backoff.factor,
        },
    )
    &&& w.admission == wire_of_admission(spec.admission).number()
    &&& as_map(w.labels) == spec.labels
}

/// A valid submission survives the wire: a message that says the same as
/// the submission is read back as the submission itself.
pub proof fn lemma_roundtrip(w: WireCreateSpecView, spec: CreateSpecView)
    requires
        spec.valid(),
        sendable(spec),
        says(w, spec),
    ensures
        decoded(w) == Ok::<CreateSpecView, ApiErrorView>(spec),
{
    assert(kind_decoded(w.kind) == Ok::<TaskKindView, ApiErrorView>(spec.kind));
    assert(restart_decoded(w.restart, w.restart_interval_ms) == Ok::<
        RestartStrategy,
        ApiErrorView,
    >(spec.restart));
    assert(backoff_decoded(w.backoff) == Ok::<BackoffStrategy, ApiErrorView>(spec.backoff));
    assert(admission_decoded(w.admission) == Ok::<AdmissionStrategy, ApiErrorView>(
        spec.admission,
    ));
}

impl WireCreateSpec {
    /// The message that says the same as `spec`, where the wire can say
    /// it.
    pub fn from(spec: CreateSpec) -> (r: Option<WireCreateSpec>)
        ensures
            match r {
                Some(w) => sendable(spec@) && says(w@, spec@),
                None => !sendable(spec@),
            },
    {
        let CreateSpec { slot, kind, timeout_ms, restart, backoff, admission, labels } = spec;
        let kind = match kind {
            TaskKind::Internal => {
                return None;
            },
            TaskKind::Subprocess { command, args, env, cwd, fail_on_non_zero } => {
                WireKind::Subprocess(
                    SubprocessTask {
                        command,
                        args,
                        env: env.0,
                        cwd,
                        fail_on_non_zero: fail_on_non_zero.is_enabled(),
                    },
                )
            },
            TaskKind::Wasm { module, args, env } => WireKind::Wasm(
                WasmTask { module, args, env: env.0 },
            ),
            TaskKind::Container { image, command, args, env } => {
                let command = match command {
                    Some(c) => {
                        if c.len() == 0 {
                            return None;
                        }
                        c
                    },
                    None => {
                        let none: Vec<String> = Vec::new();
                        assert(views(none@) =~= Seq::<Seq<char>>::empty());
                        none
                    },
                };
                WireKind::Container(ContainerTask { image, command, args, env: env.0 })
            },
        };
        let (restart, restart_interval_ms) = match restart {
            RestartStrategy::Never => (WireRestart::Never, None),
            RestartStrategy::OnFailure => (WireRestart::OnFailure, None),
            RestartStrategy::Always { interval_ms } => (WireRestart::Always, interval_ms),
            RestartStrategy::Periodic { .. } => {
                return None;
            },
        };
        let jitter = match backoff.jitter {
            JitterStrategy::Off => WireJitter::Off,
            JitterStrategy::Full => WireJitter::Full,
            JitterStrategy::Equal => WireJitter::Equal,
            JitterStrategy::Decorrelated => WireJitter::Decorrelated,
        };
        let admission = match admission {
            AdmissionStrategy::DropIfRunning => WireAdmission::DropIfRunning,
            AdmissionStrategy::Replace => WireAdmission::Replace,
            AdmissionStrategy::Queue => WireAdmission::Queue,
        };
        Some(
            WireCreateSpec {
                slot,
                kind: Some(WireTaskKind { kind: Some(kind) }),
                timeout_ms,
                restart: restart.code(),
                restart_interval_ms,
                backoff: Some(
                    WireBackoff {
                        jitter: jitter.code(),
                        first_ms: backoff.first_ms,
                        max_ms: backoff.max_ms,
                        factor: backoff.factor,
                    },
                ),
                admission: admission.code(),
                labels: labels.entries(),
            },
        )
    }
}

/// What a submit request comes to: it must carry a submission, which
/// must be a valid one.
pub open spec fn submitted(spec: Option<WireCreateSpecView>) -> Result<
    CreateSpecView,
    ApiErrorView,
> {
    match spec {
        None => invalid("missing spec"@),
        Some(w) => decoded(w),
    }
}

/// The submission of a submit request.
pub fn submit_task(spec: Option<WireCreateSpec>) -> (r: Result<CreateSpec, ApiError>)
    ensures
        built(r) == submitted(
            match spec {
                Some(w) => Some(w@),
                None => None,
            },
        ),
{
    match spec {
        Some(w) => CreateSpec::try_from(w),
        None => Err(ApiError::InvalidRequest(String::from_str("missing spec"))),
    }
}

/// The views of a list of snapshots as they are sent.
pub open spec fn sent_views(v: Seq<WireTaskInfo>) -> Seq<WireTaskInfoView> {
    v.map_values(|t: WireTaskInfo| t@)
}

/// The snapshots `tasks` as they are sent, in their order.
pub fn list_tasks(tasks: Vec<TaskInfo>) -> (r: Vec<WireTaskInfo>)
    ensures
        sent_views(r@) == crate::info::info_views(tasks@).map_values(
            |t: TaskInfoView| info_sent(t),
        ),
{
    let ghost given = tasks@;
    let mut out: Vec<WireTaskInfo> = Vec::new();
    for t in it: tasks
        invariant
            it.seq() == given,
            out@.len() == it.index(),
            forall|i: int| 0 <= i < out@.len() ==> (#[trigger] out@[i])@ == info_sent(given[i]@),
    {
        out.push(WireTaskInfo::from(t));
    }
    assert(sent_views(out@) =~= crate::info::info_views(given).map_values(
        |t: TaskInfoView| info_sent(t),
    ));
    out
}

/// The total of a listing as it is sent: its low thirty-two bits.
pub fn wire_total(total: usize) -> (r: u32)
    ensures
        r == total as u32,
{
    total as u32
}

/// What checking a kind comes to: the field that names what to run must
/// not be blank.
pub open spec fn kind_checked(kind: TaskKindView) -> Result<(), ApiErrorView> {
    match kind {
        TaskKindView::Internal => Ok(()),
        TaskKindView::Subprocess { command, .. } => if blank(command) {
            invalid("subprocess command is empty"@)
        } else {
            Ok(())
        },
        TaskKindView::Wasm { module, .. } => if blank(module) {
            invalid("wasm module path is empty"@)
        } else {
            Ok(())
        },
        TaskKindView::Container { image, .. } => if blank(image) {
            invalid("container image is empty"@)
        } else {
            Ok(())
        },
    }
}

/// What checking a submission comes to. Its parts are checked in this
/// order: the kind, the slot, the timeout, the backoff parameters. The
/// first part that breaks a rule decides the error.
pub open spec fn checked(spec: CreateSpecView) -> Result<(), ApiErrorView> {
    if kind_checked(spec.kind) is Err {
        kind_checked(spec.kind)
    } else if blank(spec.slot) {
        invalid("slot cannot be empty"@)
    } else if spec.timeout_ms == 0 {
        invalid("timeout_ms cannot be zero"@)
    } else if spec.backoff.first_ms == 0 {
        invalid("backoff first_ms cannot be zero"@)
    } else if spec.backoff.max_ms == 0 {
        invalid("backoff max_ms cannot be zero"@)
    } else if !spec.backoff.factor.positive() {
        invalid("backoff factor must be positive"@)
    } else {
        Ok(())
    }
}

/// A check passes exactly on the valid submissions, and every refusal is
/// an invalid request.
pub proof fn lemma_checked_valid(spec: CreateSpecView)
    ensures
        checked(spec) is Ok <==> spec.valid(),
        checked(spec) matches Err(e) ==> e is InvalidRequest,
{
}

/// What was read from a message passes the check.
pub proof fn lemma_decoded_checked(w: WireCreateSpecView)
    ensures
        decoded(w) matches Ok(spec) ==> checked(spec) is Ok,
{
}

impl CreateSpec {
    /// Checks a submission that was not read from a message: it passes
    /// exactly where the submission is valid.
    pub fn validate(&self) -> (r: Result<(), ApiError>)
        ensures
            r is Ok <==> self@.valid(),
            match r {
                Ok(()) => checked(self@) is Ok,
                Err(e) => checked(self@) == Err::<(), ApiErrorView>(e@),
            },
    {
        match &self.kind {
            TaskKind::Internal => {},
            TaskKind::Subprocess { command, .. } => {
                if is_blank(command.as_str()) {
                    return Err(
                        ApiError::InvalidRequest(String::from_str("subprocess command is empty")),
                    );
                }
            },
            TaskKind::Wasm { module, .. } => {
                if is_blank(module.as_str()) {
                    return Err(
                        ApiError::InvalidRequest(String::from_str("wasm module path is empty")),
                    );
                }
            },
            TaskKind::Container { image, .. } => {
                if is_blank(image.as_str()) {
                    return Err(
                        ApiError::InvalidRequest(String::from_str("container image is empty")),
                    );
                }
            },
        }
        if is_blank(self.slot.as_str()) {
            return Err(ApiError::InvalidRequest(String::from_str("slot cannot be empty")));
        }
        if self.timeout_ms == 0 {
            return Err(ApiError::InvalidRequest(String::from_str("timeout_ms cannot be zero")));
        }
        if self.backoff.first_ms == 0 {
            return Err(
                ApiError::InvalidRequest(String::from_str("backoff first_ms cannot be zero")),
            );
        }
        if self.backoff.max_ms == 0 {
            return Err(ApiError::InvalidRequest(String::from_str("backoff max_ms cannot be zero")));
        }
        if !self.backoff.factor.is_positive() {
            return Err(
                ApiError::InvalidRequest(String::from_str("backoff factor must be positive")),
            );
        }
        Ok(())
    }
}

} // verus!
