use std::time::{SystemTime, UNIX_EPOCH};

use solti::api::ApiError;
use solti::convert::{
    convert_admission_strategy, convert_backoff_strategy, convert_env, convert_labels,
    convert_restart_strategy, convert_task_kind, validate_slot, validate_timeout,
};
use solti::create_spec::CreateSpec;
use solti::env::KeyValue;
use solti::info::TaskInfo;
use solti::kind::TaskKind;
use solti::policy::{AdmissionStrategy, Factor, JitterStrategy, RestartStrategy};
use solti::status::TaskStatus;
use solti::task_id::TaskId;
use solti::wire::{
    ContainerTask, SubprocessTask, WasmTask, WireAdmission, WireBackoff, WireCreateSpec,
    WireJitter, WireKind, WireRestart, WireStatus, WireTaskInfo, WireTaskKind,
};

fn make_subprocess_kind(command: &str) -> WireTaskKind {
    WireTaskKind {
        kind: Some(WireKind::Subprocess(SubprocessTask {
            command: command.to_string(),
            args: vec!["-l".to_string()],
            env: vec![KeyValue::new("PATH", "/usr/bin")],
            cwd: Some("/tmp".to_string()),
            fail_on_non_zero: true,
        })),
    }
}

fn factor(f: f64) -> Factor {
    Factor::from_bits(f.to_bits())
}

fn make_backoff() -> WireBackoff {
    WireBackoff {
        jitter: WireJitter::Full.code(),
        first_ms: 100,
        max_ms: 10_000,
        factor: factor(2.0),
    }
}

fn make_valid_create_spec() -> WireCreateSpec {
    WireCreateSpec {
        slot: "test-slot".to_string(),
        kind: Some(make_subprocess_kind("ls")),
        timeout_ms: 5_000,
        restart: WireRestart::OnFailure.code(),
        restart_interval_ms: None,
        backoff: Some(make_backoff()),
        admission: WireAdmission::DropIfRunning.code(),
        labels: Vec::new(),
    }
}

fn invalid(err: ApiError) -> String {
    match err {
        ApiError::InvalidRequest(msg) => msg,
        other => panic!("expected an invalid request, got {:?}", other),
    }
}

#[test]
fn task_status_all_variants() {
    let cases = [
        (TaskStatus::Pending, WireStatus::Pending),
        (TaskStatus::Running, WireStatus::Running),
        (TaskStatus::Succeeded, WireStatus::Succeeded),
        (TaskStatus::Failed, WireStatus::Failed),
        (TaskStatus::Timeout, WireStatus::Timeout),
        (TaskStatus::Canceled, WireStatus::Canceled),
        (TaskStatus::Exhausted, WireStatus::Exhausted),
    ];

    for (domain, expected_proto) in cases {
        let proto = WireStatus::from(domain);
        assert_eq!(proto, expected_proto, "mismatch for {:?}", domain);
    }
}

#[test]
fn task_info_converts_correctly() {
    let now = SystemTime::now();
    let now_secs = now.duration_since(UNIX_EPOCH).unwrap().as_secs();

    let info = TaskInfo {
        id: TaskId::from("task-42"),
        slot: "my-slot".to_string(),
        status: TaskStatus::Running,
        attempt: 3,
        created_at: now_secs,
        updated_at: now_secs,
        error: Some("boom".to_string()),
    };

    let proto = WireTaskInfo::from(info);

    assert_eq!(proto.id, "task-42");
    assert_eq!(proto.slot, "my-slot");
    assert_eq!(proto.status, WireStatus::Running.code());
    assert_eq!(proto.attempt, 3);
    assert_eq!(proto.created_at, now_secs as i64);
    assert_eq!(proto.updated_at, now_secs as i64);
    assert_eq!(proto.error, Some("boom".to_string()));
}

#[test]
fn task_info_no_error() {
    let now_secs = SystemTime::now().duration_since(UNIX_EPOCH).unwrap().as_secs();
    let info = TaskInfo {
        id: TaskId::from("task-1"),
        slot: "slot".to_string(),
        status: TaskStatus::Succeeded,
        attempt: 1,
        created_at: now_secs,
        updated_at: now_secs,
        error: None,
    };

    let proto = WireTaskInfo::from(info);
    assert_eq!(proto.error, None);
}

#[test]
fn create_spec_subprocess_valid() {
    let spec = make_valid_create_spec();
    let result = CreateSpec::try_from(spec);
    assert!(result.is_ok());

    let cs = result.unwrap();
    assert_eq!(cs.slot, "test-slot");
    assert_eq!(cs.timeout_ms, 5_000);
    assert!(matches!(cs.kind, TaskKind::Subprocess { ref command, .. } if command == "ls"));
    assert!(matches!(cs.restart, RestartStrategy::OnFailure));
    assert!(matches!(cs.admission, AdmissionStrategy::DropIfRunning));
    assert_eq!(cs.backoff.first_ms, 100);
    assert_eq!(cs.backoff.max_ms, 10_000);
}

#[test]
fn create_spec_wasm_valid() {
    let spec = WireCreateSpec {
        kind: Some(WireTaskKind {
            kind: Some(WireKind::Wasm(WasmTask {
                module: "/app/module.wasm".to_string(),
                args: vec!["--verbose".to_string()],
                env: vec![],
            })),
        }),
        ..make_valid_create_spec()
    };

    let cs = CreateSpec::try_from(spec).unwrap();
    assert!(matches!(cs.kind, TaskKind::Wasm { ref module, .. } if module == "/app/module.wasm"));
}

#[test]
fn create_spec_container_valid() {
    let spec = WireCreateSpec {
        kind: Some(WireTaskKind {
            kind: Some(WireKind::Container(ContainerTask {
                image: "alpine:latest".to_string(),
                command: vec!["sh".to_string(), "-c".to_string()],
                args: vec!["echo hello".to_string()],
                env: vec![],
            })),
        }),
        ..make_valid_create_spec()
    };

    let cs = CreateSpec::try_from(spec).unwrap();
    assert!(matches!(cs.kind, TaskKind::Container { ref image, .. } if image == "alpine:latest"));
}

#[test]
fn create_spec_container_empty_command_becomes_none() {
    let spec = WireCreateSpec {
        kind: Some(WireTaskKind {
            kind: Some(WireKind::Container(ContainerTask {
                image: "nginx".to_string(),
                command: vec![],
                args: vec![],
                env: vec![],
            })),
        }),
        ..make_valid_create_spec()
    };

    let cs = CreateSpec::try_from(spec).unwrap();
    assert!(matches!(cs.kind, TaskKind::Container { command: None, .. }));
}

#[test]
fn create_spec_always_with_interval() {
    let spec = WireCreateSpec {
        restart: WireRestart::Always.code(),
        restart_interval_ms: Some(5_000),
        ..make_valid_create_spec()
    };

    let cs = CreateSpec::try_from(spec).unwrap();
    assert!(matches!(
        cs.restart,
        RestartStrategy::Always {
            interval_ms: Some(5_000)
        }
    ));
}

#[test]
fn create_spec_always_without_interval() {
    let spec = WireCreateSpec {
        restart: WireRestart::Always.code(),
        restart_interval_ms: None,
        ..make_valid_create_spec()
    };

    let cs = CreateSpec::try_from(spec).unwrap();
    assert!(matches!(
        cs.restart,
        RestartStrategy::Always { interval_ms: None }
    ));
}

#[test]
fn create_spec_with_labels() {
    let labels = vec![
        ("runner-tag".to_string(), "gpu".to_string()),
        ("env".to_string(), "prod".to_string()),
    ];

    let spec = WireCreateSpec {
        labels,
        ..make_valid_create_spec()
    };

    let cs = CreateSpec::try_from(spec).unwrap();
    assert_eq!(cs.labels.get("runner-tag"), Some("gpu"));
    assert_eq!(cs.labels.get("env"), Some("prod"));
}

#[test]
fn create_spec_env_conversion() {
    let spec = make_valid_create_spec();
    let cs = CreateSpec::try_from(spec).unwrap();

    if let TaskKind::Subprocess { ref env, .. } = cs.kind {
        assert_eq!(env.get("PATH"), Some("/usr/bin"));
    } else {
        panic!("expected subprocess kind");
    }
}

#[test]
fn reject_missing_kind() {
    let spec = WireCreateSpec {
        kind: None,
        ..make_valid_create_spec()
    };
    let err = CreateSpec::try_from(spec).unwrap_err();
    assert!(matches!(err, ApiError::InvalidRequest(msg) if msg.contains("missing task kind")));
}

#[test]
fn reject_missing_kind_variant() {
    let spec = WireCreateSpec {
        kind: Some(WireTaskKind { kind: None }),
        ..make_valid_create_spec()
    };
    let err = CreateSpec::try_from(spec).unwrap_err();
    assert!(
        matches!(err, ApiError::InvalidRequest(msg) if msg.contains("missing task kind variant"))
    );
}

#[test]
fn reject_empty_subprocess_command() {
    let spec = WireCreateSpec {
        kind: Some(make_subprocess_kind("")),
        ..make_valid_create_spec()
    };
    let err = CreateSpec::try_from(spec).unwrap_err();
    assert!(
        matches!(err, ApiError::InvalidRequest(msg) if msg.contains("subprocess command is empty"))
    );
}

#[test]
fn reject_whitespace_subprocess_command() {
    let spec = WireCreateSpec {
        kind: Some(make_subprocess_kind("   ")),
        ..make_valid_create_spec()
    };
    let err = CreateSpec::try_from(spec).unwrap_err();
    assert!(
        matches!(err, ApiError::InvalidRequest(msg) if msg.contains("subprocess command is empty"))
    );
}

#[test]
fn reject_empty_wasm_module() {
    let spec = WireCreateSpec {
        kind: Some(WireTaskKind {
            kind: Some(WireKind::Wasm(WasmTask {
                module: "".to_string(),
                args: vec![],
                env: vec![],
            })),
        }),
        ..make_valid_create_spec()
    };
    let err = CreateSpec::try_from(spec).unwrap_err();
    assert!(
        matches!(err, ApiError::InvalidRequest(msg) if msg.contains("wasm module path is empty"))
    );
}

#[test]
fn reject_empty_container_image() {
    let spec = WireCreateSpec {
        kind: Some(WireTaskKind {
            kind: Some(WireKind::Container(ContainerTask {
                image: "".to_string(),
                command: vec![],
                args: vec![],
                env: vec![],
            })),
        }),
        ..make_valid_create_spec()
    };
    let err = CreateSpec::try_from(spec).unwrap_err();
    assert!(
        matches!(err, ApiError::InvalidRequest(msg) if msg.contains("container image is empty"))
    );
}

#[test]
fn reject_empty_slot() {
    let spec = WireCreateSpec {
        slot: "".to_string(),
        ..make_valid_create_spec()
    };
    let err = CreateSpec::try_from(spec).unwrap_err();
    assert!(matches!(err, ApiError::InvalidRequest(msg) if msg.contains("slot cannot be empty")));
}

#[test]
fn reject_whitespace_slot() {
    let spec = WireCreateSpec {
        slot: "   ".to_string(),
        ..make_valid_create_spec()
    };
    let err = CreateSpec::try_from(spec).unwrap_err();
    assert!(matches!(err, ApiError::InvalidRequest(msg) if msg.contains("slot cannot be empty")));
}

#[test]
fn reject_zero_timeout() {
    let spec = WireCreateSpec {
        timeout_ms: 0,
        ..make_valid_create_spec()
    };
    let err = CreateSpec::try_from(spec).unwrap_err();
    assert!(
        matches!(err, ApiError::InvalidRequest(msg) if msg.contains("timeout_ms cannot be zero"))
    );
}

#[test]
fn reject_missing_backoff() {
    let spec = WireCreateSpec {
        backoff: None,
        ..make_valid_create_spec()
    };
    let err = CreateSpec::try_from(spec).unwrap_err();
    assert!(matches!(err, ApiError::InvalidRequest(msg) if msg.contains("missing backoff")));
}

#[test]
fn reject_zero_backoff_first_ms() {
    let spec = WireCreateSpec {
        backoff: Some(WireBackoff {
            first_ms: 0,
            ..make_backoff()
        }),
        ..make_valid_create_spec()
    };
    let err = CreateSpec::try_from(spec).unwrap_err();
    assert!(
        matches!(err, ApiError::InvalidRequest(msg) if msg.contains("first_ms cannot be zero"))
    );
}

#[test]
fn reject_zero_backoff_max_ms() {
    let spec = WireCreateSpec {
        backoff: Some(WireBackoff {
            max_ms: 0,
            ..make_backoff()
        }),
        ..make_valid_create_spec()
    };
    let err = CreateSpec::try_from(spec).unwrap_err();
    assert!(matches!(err, ApiError::InvalidRequest(msg) if msg.contains("max_ms cannot be zero")));
}

#[test]
fn reject_negative_backoff_factor() {
    let spec = WireCreateSpec {
        backoff: Some(WireBackoff {
            factor: factor(-1.0),
            ..make_backoff()
        }),
        ..make_valid_create_spec()
    };
    let err = CreateSpec::try_from(spec).unwrap_err();
    assert!(
        matches!(err, ApiError::InvalidRequest(msg) if msg.contains("factor must be positive"))
    );
}

#[test]
fn reject_zero_backoff_factor() {
    let spec = WireCreateSpec {
        backoff: Some(WireBackoff {
            factor: factor(0.0),
            ..make_backoff()
        }),
        ..make_valid_create_spec()
    };
    let err = CreateSpec::try_from(spec).unwrap_err();
    assert!(
        matches!(err, ApiError::InvalidRequest(msg) if msg.contains("factor must be positive"))
    );
}

#[test]
fn reject_unspecified_jitter() {
    let spec = WireCreateSpec {
        backoff: Some(WireBackoff {
            jitter: WireJitter::Unspecified.code(),
            ..make_backoff()
        }),
        ..make_valid_create_spec()
    };
    let err = CreateSpec::try_from(spec).unwrap_err();
    assert!(matches!(err, ApiError::InvalidRequest(msg) if msg.contains("jitter")));
}

#[test]
fn all_jitter_strategies_convert() {
    let cases = [
        (WireJitter::Off, JitterStrategy::Off),
        (WireJitter::Full, JitterStrategy::Full),
        (WireJitter::Equal, JitterStrategy::Equal),
        (WireJitter::Decorrelated, JitterStrategy::Decorrelated),
    ];

    for (proto_jitter, expected) in cases {
        let spec = WireCreateSpec {
            backoff: Some(WireBackoff {
                jitter: proto_jitter.code(),
                ..make_backoff()
            }),
            ..make_valid_create_spec()
        };
        let cs = CreateSpec::try_from(spec).unwrap();
        assert_eq!(cs.backoff.jitter, expected);
    }
}

#[test]
fn reject_unspecified_restart() {
    let spec = WireCreateSpec {
        restart: WireRestart::Unspecified.code(),
        ..make_valid_create_spec()
    };
    let err = CreateSpec::try_from(spec).unwrap_err();
    assert!(matches!(err, ApiError::InvalidRequest(msg) if msg.contains("restart")));
}

#[test]
fn restart_never() {
    let spec = WireCreateSpec {
        restart: WireRestart::Never.code(),
        ..make_valid_create_spec()
    };
    let cs = CreateSpec::try_from(spec).unwrap();
    assert!(matches!(cs.restart, RestartStrategy::Never));
}

#[test]
fn reject_unspecified_admission() {
    let spec = WireCreateSpec {
        admission: WireAdmission::Unspecified.code(),
        ..make_valid_create_spec()
    };
    let err = CreateSpec::try_from(spec).unwrap_err();
    assert!(matches!(err, ApiError::InvalidRequest(msg) if msg.contains("admission")));
}

#[test]
fn all_admission_strategies_convert() {
    let cases = [
        (WireAdmission::DropIfRunning, AdmissionStrategy::DropIfRunning),
        (WireAdmission::Replace, AdmissionStrategy::Replace),
        (WireAdmission::Queue, AdmissionStrategy::Queue),
    ];

    for (proto_adm, expected) in cases {
        let spec = WireCreateSpec {
            admission: proto_adm.code(),
            ..make_valid_create_spec()
        };
        let cs = CreateSpec::try_from(spec).unwrap();
        assert_eq!(cs.admission, expected);
    }
}

#[test]
fn exact_messages_of_every_rejection() {
    let with = |change: fn(&mut WireCreateSpec)| {
        let mut spec = make_valid_create_spec();
        change(&mut spec);
        invalid(CreateSpec::try_from(spec).unwrap_err())
    };
    assert_eq!(with(|s| s.kind = None), "missing task kind");
    assert_eq!(with(|s| s.kind = Some(WireTaskKind { kind: None })), "missing task kind variant");
    assert_eq!(with(|s| s.restart = 99), "invalid restart strategy");
    assert_eq!(with(|s| s.restart = 0), "restart strategy not specified");
    assert_eq!(with(|s| s.backoff = None), "missing backoff strategy");
    assert_eq!(with(|s| s.slot = " \t".to_string()), "slot cannot be empty");
    assert_eq!(with(|s| s.timeout_ms = 0), "timeout_ms cannot be zero");
    assert_eq!(
        with(|s| s.backoff = Some(WireBackoff { jitter: 77, ..make_backoff() })),
        "invalid jitter strategy"
    );
    assert_eq!(
        with(|s| s.backoff = Some(WireBackoff { jitter: 0, ..make_backoff() })),
        "jitter strategy not specified"
    );
    assert_eq!(
        with(|s| s.backoff = Some(WireBackoff { first_ms: 0, ..make_backoff() })),
        "backoff first_ms cannot be zero"
    );
    assert_eq!(
        with(|s| s.backoff = Some(WireBackoff { max_ms: 0, ..make_backoff() })),
        "backoff max_ms cannot be zero"
    );
    assert_eq!(
        with(|s| s.backoff = Some(WireBackoff { factor: factor(-0.5), ..make_backoff() })),
        "backoff factor must be positive"
    );
    assert_eq!(with(|s| s.admission = -1), "invalid admission strategy");
    assert_eq!(with(|s| s.admission = 0), "admission strategy not specified");
}

#[test]
fn the_first_broken_rule_is_reported() {
    let mut spec = make_valid_create_spec();
    spec.slot = String::new();
    spec.timeout_ms = 0;
    spec.admission = 0;
    assert_eq!(invalid(CreateSpec::try_from(spec).unwrap_err()), "slot cannot be empty");

    let mut spec = make_valid_create_spec();
    spec.kind = None;
    spec.slot = String::new();
    assert_eq!(invalid(CreateSpec::try_from(spec).unwrap_err()), "missing task kind");

    let mut spec = make_valid_create_spec();
    spec.backoff = None;
    spec.slot = String::new();
    assert_eq!(invalid(CreateSpec::try_from(spec).unwrap_err()), "missing backoff strategy");
}

#[test]
fn factor_must_be_greater_than_zero() {
    assert!(factor(2.0).is_positive());
    assert!(factor(f64::MIN_POSITIVE).is_positive());
    assert!(factor(f64::INFINITY).is_positive());
    assert!(!factor(0.0).is_positive());
    assert!(!factor(-0.0).is_positive());
    assert!(!factor(-1.0).is_positive());
    assert!(!factor(f64::NEG_INFINITY).is_positive());
    assert!(!factor(f64::NAN).is_positive());
    assert_eq!(factor(2.0).to_bits(), solti::policy::FACTOR_TWO_BITS);
    assert_eq!(factor(1.0).to_bits(), solti::policy::FACTOR_ONE_BITS);
    assert_eq!(factor(f64::INFINITY).to_bits(), solti::policy::FACTOR_INFINITY_BITS);
}

#[test]
fn parts_convert_on_their_own() {
    assert_eq!(validate_timeout(7).unwrap(), 7);
    assert_eq!(invalid(validate_timeout(0).unwrap_err()), "timeout_ms cannot be zero");
    assert_eq!(validate_slot("s".to_string()).unwrap(), "s");
    assert_eq!(invalid(validate_slot("\n".to_string()).unwrap_err()), "slot cannot be empty");
    assert_eq!(
        convert_restart_strategy(WireRestart::Always, Some(3)).unwrap(),
        RestartStrategy::Always { interval_ms: Some(3) }
    );
    assert_eq!(
        convert_restart_strategy(WireRestart::Never, Some(3)).unwrap(),
        RestartStrategy::Never
    );
    assert_eq!(
        convert_admission_strategy(WireAdmission::Queue).unwrap(),
        AdmissionStrategy::Queue
    );
    let b = convert_backoff_strategy(make_backoff()).unwrap();
    assert_eq!((b.first_ms, b.max_ms, b.factor), (100, 10_000, factor(2.0)));
    let env = convert_env(vec![KeyValue::new("A", "1"), KeyValue::new("A", "2")]);
    assert_eq!(env.len(), 2);
    assert_eq!(env.get("A"), Some("2"));
    let labels = convert_labels(vec![
        ("k".to_string(), "old".to_string()),
        ("k".to_string(), "new".to_string()),
    ]);
    assert_eq!(labels.get("k"), Some("new"));
    assert_eq!(labels.get("other"), None);
    let kind = convert_task_kind(WireKind::Wasm(WasmTask {
        module: "m.wasm".to_string(),
        args: vec![],
        env: vec![],
    }))
    .unwrap();
    assert_eq!(kind.kind(), "wasm");
}

#[test]
fn wire_numbers_are_read_back() {
    for s in [
        WireStatus::Unspecified,
        WireStatus::Pending,
        WireStatus::Running,
        WireStatus::Succeeded,
        WireStatus::Failed,
        WireStatus::Timeout,
        WireStatus::Canceled,
        WireStatus::Exhausted,
    ] {
        assert_eq!(WireStatus::from_code(s.code()), Some(s));
    }
    assert_eq!(WireStatus::from_code(8), None);
    assert_eq!(WireStatus::from_code(-1), None);
    for r in [WireRestart::Unspecified, WireRestart::Never, WireRestart::OnFailure, WireRestart::Always] {
        assert_eq!(WireRestart::from_code(r.code()), Some(r));
    }
    assert_eq!(WireRestart::from_code(4), None);
    for j in [
        WireJitter::Unspecified,
        WireJitter::Off,
        WireJitter::Full,
        WireJitter::Equal,
        WireJitter::Decorrelated,
    ] {
        assert_eq!(WireJitter::from_code(j.code()), Some(j));
    }
    assert_eq!(WireJitter::from_code(5), None);
    for a in [
        WireAdmission::Unspecified,
        WireAdmission::DropIfRunning,
        WireAdmission::Replace,
        WireAdmission::Queue,
    ] {
        assert_eq!(WireAdmission::from_code(a.code()), Some(a));
    }
    assert_eq!(WireAdmission::from_code(4), None);
    assert_eq!(WireStatus::Running.code(), 2);
}

#[test]
fn a_submission_survives_the_wire() {
    let mut spec = make_valid_create_spec();
    spec.labels = vec![("runner-tag".to_string(), "gpu".to_string())];
    spec.restart = WireRestart::Always.code();
    spec.restart_interval_ms = Some(250);
    let first = CreateSpec::try_from(spec).unwrap();
    let sent = WireCreateSpec::from(first.clone()).expect("the wire can say it");
    let second = CreateSpec::try_from(sent).unwrap();
    assert_eq!(second.slot, first.slot);
    assert_eq!(second.timeout_ms, first.timeout_ms);
    assert_eq!(second.restart, first.restart);
    assert_eq!(second.backoff, first.backoff);
    assert_eq!(second.admission, first.admission);
    assert_eq!(second.labels.get("runner-tag"), Some("gpu"));
    match (&first.kind, &second.kind) {
        (
            TaskKind::Subprocess { command: c1, args: a1, env: e1, cwd: w1, fail_on_non_zero: f1 },
            TaskKind::Subprocess { command: c2, args: a2, env: e2, cwd: w2, fail_on_non_zero: f2 },
        ) => {
            assert_eq!(c1, c2);
            assert_eq!(a1, a2);
            assert!(e1 == e2);
            assert_eq!(w1, w2);
            assert_eq!(f1, f2);
        }
        _ => panic!("expected subprocess kinds"),
    }
}

#[test]
fn what_the_wire_cannot_say_is_not_sent() {
    let base = CreateSpec::try_from(make_valid_create_spec()).unwrap();
    let mut internal = base.clone();
    internal.kind = TaskKind::Internal;
    assert!(WireCreateSpec::from(internal).is_none());
    let mut periodic = base.clone();
    periodic.restart = RestartStrategy::periodic(10);
    assert!(WireCreateSpec::from(periodic).is_none());
    let mut container = base.clone();
    container.kind = TaskKind::Container {
        image: "img".to_string(),
        command: Some(vec![]),
        args: vec![],
        env: solti::env::TaskEnv::new(),
    };
    assert!(WireCreateSpec::from(container).is_none());
}

#[test]
fn a_submit_request_must_carry_a_submission() {
    assert_eq!(invalid(solti::convert::submit_task(None).unwrap_err()), "missing spec");
    let cs = solti::convert::submit_task(Some(make_valid_create_spec())).unwrap();
    assert_eq!(cs.slot, "test-slot");
    let mut bad = make_valid_create_spec();
    bad.timeout_ms = 0;
    assert_eq!(
        invalid(solti::convert::submit_task(Some(bad)).unwrap_err()),
        "timeout_ms cannot be zero"
    );
}

#[test]
fn a_listing_is_sent_in_its_order() {
    let info = |id: &str, status| TaskInfo {
        id: TaskId::from(id),
        slot: "s".to_string(),
        status,
        attempt: 1,
        created_at: 5,
        updated_at: 6,
        error: None,
    };
    let sent = solti::convert::list_tasks(vec![
        info("a", TaskStatus::Pending),
        info("b", TaskStatus::Exhausted),
        info("c", TaskStatus::Running),
    ]);
    let got: Vec<(String, i32)> = sent.iter().map(|t| (t.id.clone(), t.status)).collect();
    assert_eq!(
        got,
        vec![("a".to_string(), 1), ("b".to_string(), 7), ("c".to_string(), 2)]
    );
    assert_eq!((sent[0].created_at, sent[0].updated_at), (5, 6));
    assert!(solti::convert::list_tasks(vec![]).is_empty());
    assert_eq!(solti::convert::wire_total(5), 5);
    assert_eq!(solti::convert::wire_total(u32::MAX as usize), u32::MAX);
}

#[test]
fn a_submission_is_checked_on_its_own() {
    let valid = CreateSpec::try_from(make_valid_create_spec()).unwrap();
    assert!(valid.validate().is_ok());
    let check = |change: fn(&mut CreateSpec)| {
        let mut spec = CreateSpec::try_from(make_valid_create_spec()).unwrap();
        change(&mut spec);
        spec.validate().map_err(invalid)
    };
    assert_eq!(check(|s| s.slot = "  ".to_string()), Err("slot cannot be empty".to_string()));
    assert_eq!(check(|s| s.timeout_ms = 0), Err("timeout_ms cannot be zero".to_string()));
    assert_eq!(
        check(|s| s.backoff.first_ms = 0),
        Err("backoff first_ms cannot be zero".to_string())
    );
    assert_eq!(check(|s| s.backoff.max_ms = 0), Err("backoff max_ms cannot be zero".to_string()));
    assert_eq!(
        check(|s| s.backoff.factor = factor(f64::NAN)),
        Err("backoff factor must be positive".to_string())
    );
    assert_eq!(
        check(|s| s.kind = TaskKind::Subprocess {
            command: " ".to_string(),
            args: vec![],
            env: solti::env::TaskEnv::new(),
            cwd: None,
            fail_on_non_zero: solti::kind::Flag::enabled(),
        }),
        Err("subprocess command is empty".to_string())
    );
    assert_eq!(
        check(|s| s.kind = TaskKind::Wasm {
            module: String::new(),
            args: vec![],
            env: solti::env::TaskEnv::new(),
        }),
        Err("wasm module path is empty".to_string())
    );
    assert_eq!(
        check(|s| s.kind = TaskKind::Container {
            image: "\n".to_string(),
            command: None,
            args: vec![],
            env: solti::env::TaskEnv::new(),
        }),
        Err("container image is empty".to_string())
    );
    assert_eq!(check(|s| s.kind = TaskKind::Internal), Ok(()));
    assert_eq!(check(|s| s.restart = RestartStrategy::periodic(5)), Ok(()));
    assert_eq!(
        check(|s| {
            s.slot = String::new();
            s.timeout_ms = 0;
            s.kind = TaskKind::Wasm {
                module: String::new(),
                args: vec![],
                env: solti::env::TaskEnv::new(),
            };
        }),
        Err("wasm module path is empty".to_string())
    );
}
