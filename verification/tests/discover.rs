use solti::discover::{
    build_base_request, stamp_request, sync_canceled, sync_outcome, sync_spec, sync_url,
    validate_response, DiscoverConfig, DiscoverError, DiscoveryTransport, HostFacts,
    SyncResponse, SYNC_SLOT,
};
use solti::heartbeat::{
    heartbeat_outcome, heartbeat_request, heartbeat_spec, send_heartbeat, DiscoveryConfig,
    HeartbeatEnd, HEARTBEAT_SLOT,
};
use solti::kind::TaskKind;
use solti::policy::{
    AdmissionStrategy, JitterStrategy, RestartStrategy, FACTOR_ONE_BITS, FACTOR_TWO_BITS,
};
use solti::runner::TaskFailure;

fn config(delay_ms: u64) -> DiscoverConfig {
    DiscoverConfig {
        metadata: vec![("region".to_string(), "us-east-1".to_string())],
        control_plane_endpoint: "http://localhost:8082".to_string(),
        transport: DiscoveryTransport::Http,
        agent_endpoint: "http://0.0.0.0:8085".to_string(),
        name: "demo-agent".to_string(),
        delay_ms,
    }
}

fn host() -> HostFacts {
    HostFacts {
        agent_id: "agent-1".to_string(),
        platform: "linux".to_string(),
        arch: "x86_64".to_string(),
        os: "Debian".to_string(),
    }
}

#[test]
fn sync_submission_follows_the_delay() {
    let spec = sync_spec(&config(10_000));
    assert_eq!(spec.slot, "tno-discover-sync");
    assert_eq!(spec.slot, SYNC_SLOT);
    assert_eq!(spec.timeout_ms, 10_000);
    assert_eq!(spec.restart, RestartStrategy::Periodic { interval_ms: 10_000 });
    assert_eq!(spec.backoff.jitter, JitterStrategy::Equal);
    assert_eq!(spec.backoff.first_ms, 5_000);
    assert_eq!(spec.backoff.max_ms, 30_000);
    assert_eq!(spec.backoff.factor.to_bits(), FACTOR_TWO_BITS);
    assert_eq!(f64::from_bits(spec.backoff.factor.to_bits()), 2.0);
    assert_eq!(spec.admission, AdmissionStrategy::Replace);
    assert!(matches!(spec.kind, TaskKind::Internal));
    assert_eq!(spec.labels.get("runner-tag"), None);
    assert!(spec.backoff.is_valid());
    assert!(!sync_spec(&config(1)).backoff.is_valid());
    assert_eq!(sync_spec(&config(3)).backoff.first_ms, 1);
}

#[test]
fn sync_request_is_built_and_stamped() {
    let base = build_base_request(&config(10), &host());
    assert_eq!(base.id, "agent-1");
    assert_eq!(base.name, "demo-agent");
    assert_eq!(base.endpoint, "http://0.0.0.0:8085");
    assert_eq!((base.platform.as_str(), base.arch.as_str(), base.os.as_str()), ("linux", "x86_64", "Debian"));
    assert_eq!(base.metadata, vec![("region".to_string(), "us-east-1".to_string())]);
    assert_eq!((base.ts, base.uptime_seconds), (0, 0));
    let stamped = stamp_request(&base, 1_700_000_000, 42);
    assert_eq!((stamped.ts, stamped.uptime_seconds), (1_700_000_000, 42));
    assert_eq!(stamped.id, base.id);
    assert_eq!(stamped.metadata, base.metadata);
    assert_eq!(stamped.os, base.os);
    assert_eq!(sync_url(&config(10)), "http://localhost:8082/api/v1/discovery/sync");
}

#[test]
fn sync_answers_are_judged() {
    assert!(validate_response(SyncResponse { success: true }).is_ok());
    assert!(matches!(
        validate_response(SyncResponse { success: false }),
        Err(DiscoverError::Rejected)
    ));
    assert!(sync_outcome(Ok(())).is_ok());
    match sync_outcome(Err(DiscoverError::Rejected)) {
        Err(TaskFailure::Fail { reason }) => {
            assert_eq!(reason, "sync failed: control plane rejected sync")
        }
        other => panic!("expected a failure, got {:?}", other),
    }
    match sync_outcome(Err(DiscoverError::HttpRequest("refused".to_string()))) {
        Err(TaskFailure::Fail { reason }) => {
            assert_eq!(reason, "sync failed: http request failed: refused")
        }
        other => panic!("expected a failure, got {:?}", other),
    }
    assert!(matches!(sync_canceled(), Err(TaskFailure::Canceled)));
}

#[test]
fn discover_error_messages() {
    assert_eq!(
        DiscoverError::GrpcTransport("x".to_string()).message(),
        "failed to connect to control plane: x"
    );
    assert_eq!(DiscoverError::GrpcStatus("x".to_string()).message(), "grpc call failed: x");
    assert_eq!(DiscoverError::HttpRequest("x".to_string()).message(), "http request failed: x");
    assert_eq!(DiscoverError::InvalidResponse("x".to_string()).message(), "invalid response: x");
    assert_eq!(DiscoverError::Rejected.message(), "control plane rejected sync");
    assert_eq!(
        DiscoverError::unparsable("eof", "{").message(),
        "invalid response: failed to parse response: eof, body: {"
    );
}

fn heartbeat_config() -> DiscoveryConfig {
    DiscoveryConfig {
        agent_id: "demo-agent-1".to_string(),
        agent_endpoint: "http://localhost:8080".to_string(),
        lighthouse_endpoint: "http://localhost:50051".to_string(),
        heartbeat_interval_ms: 10_000,
        heartbeat_timeout_ms: 5_000,
    }
}

#[test]
fn heartbeat_submission_follows_the_config() {
    let spec = heartbeat_spec(&heartbeat_config());
    assert_eq!(spec.slot, "tno-api-autodiscovery-heartbeat");
    assert_eq!(spec.slot, HEARTBEAT_SLOT);
    assert_eq!(spec.timeout_ms, 5_000);
    assert_eq!(spec.restart, RestartStrategy::Periodic { interval_ms: 10_000 });
    assert_eq!(spec.backoff.jitter, JitterStrategy::Off);
    assert_eq!((spec.backoff.first_ms, spec.backoff.max_ms), (5_000, 10_000));
    assert_eq!(spec.backoff.factor.to_bits(), FACTOR_ONE_BITS);
    assert_eq!(f64::from_bits(spec.backoff.factor.to_bits()), 1.0);
    assert_eq!(spec.admission, AdmissionStrategy::Replace);
    assert!(matches!(spec.kind, TaskKind::Internal));
}

#[test]
fn heartbeat_defaults() {
    let named = DiscoveryConfig::for_host(Some("node-7".to_string()));
    assert_eq!(named.agent_id, "node-7");
    assert_eq!(named.agent_endpoint, "http://localhost:8080");
    assert_eq!(named.lighthouse_endpoint, "http://localhost:50051");
    assert_eq!((named.heartbeat_interval_ms, named.heartbeat_timeout_ms), (30_000, 5_000));
    assert_eq!(DiscoveryConfig::for_host(None).agent_id, "unknown-agent");
    let default = DiscoveryConfig::default();
    assert!(!default.agent_id.is_empty());
    assert_eq!(default.heartbeat_interval_ms, 30_000);
    assert!(default.validate().is_ok());
    assert!(heartbeat_config().validate().is_ok());
}

#[test]
fn heartbeat_request_and_outcome() {
    let req = heartbeat_request(&heartbeat_config(), 1_700_000_000);
    assert_eq!(req.agent_id, "demo-agent-1");
    assert_eq!(req.endpoint, "http://localhost:8080");
    assert_eq!((req.timestamp, req.uptime_seconds), (1_700_000_000, 0));
    assert!(req.capabilities.is_empty());
    assert_eq!(heartbeat_request(&heartbeat_config(), 0).timestamp, 0);

    assert!(send_heartbeat(&HeartbeatEnd::Answered { acknowledged: true }).is_ok());
    assert_eq!(
        send_heartbeat(&HeartbeatEnd::Answered { acknowledged: false }).unwrap_err(),
        "lighthouse did not acknowledge heartbeat"
    );
    assert_eq!(
        send_heartbeat(&HeartbeatEnd::ConnectFailed("refused".to_string())).unwrap_err(),
        "failed to connect to lighthouse: refused"
    );
    assert_eq!(
        send_heartbeat(&HeartbeatEnd::CallFailed("deadline".to_string())).unwrap_err(),
        "heartbeat RPC failed: deadline"
    );
    assert!(heartbeat_outcome(false, &HeartbeatEnd::Answered { acknowledged: true }).is_ok());
    assert!(matches!(
        heartbeat_outcome(true, &HeartbeatEnd::Answered { acknowledged: true }),
        Err(TaskFailure::Canceled)
    ));
    match heartbeat_outcome(false, &HeartbeatEnd::CallFailed("deadline".to_string())) {
        Err(TaskFailure::Fail { reason }) => {
            assert_eq!(reason, "heartbeat failed: heartbeat RPC failed: deadline")
        }
        other => panic!("expected a failure, got {:?}", other),
    }
}
