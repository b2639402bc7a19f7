use agent_core::identity::AgentIdentity;
use agent_core::policy::{ExecutionPolicy, PolicyBundle};
use agent_core::telemetry_router::{
    evaluate_telemetry, route_telemetry, route_telemetry_at, route_telemetry_with_context, TelemetryPayload,
    TelemetryRouteConfig, TelemetryVerdict,
};

fn build_policy() -> PolicyBundle {
    PolicyBundle {
        schema_version: 1,
        version: "policy-test".to_string(),
        issued_at_unix_time_ms: 0,
        expires_at_unix_time_ms: u64::MAX,
        signing_key_id: "key-test".to_string(),
        signature: "signature".to_string(),
        execution: ExecutionPolicy {
            allowed_actions: vec!["patch-apply".to_string(), "script-run".to_string()],
            max_arguments: 2,
            max_argument_length: 8,
        },
        telemetry_streams: vec!["agent".to_string(), "sensor".to_string()],
    }
}

fn payload(stream: &str, payload_bytes: usize) -> TelemetryPayload {
    TelemetryPayload {
        stream: stream.to_string(),
        payload_bytes,
        event_count: 1,
        checksum_sha256: Some("hash".to_string()),
    }
}

fn strict_config() -> TelemetryRouteConfig {
    TelemetryRouteConfig {
        max_payload_bytes: 128,
        min_payload_bytes: 1,
        max_event_count: 10,
        require_checksum: true,
    }
}

#[test]
fn accepts_allowed_stream() {
    let policy = build_policy();
    let payload = TelemetryPayload {
        stream: "sensor".to_string(),
        payload_bytes: 12,
        event_count: 1,
        checksum_sha256: Some("hash".to_string()),
    };
    assert!(route_telemetry(payload, &policy));
}

#[test]
fn rejects_unknown_stream() {
    let policy = build_policy();
    let payload = TelemetryPayload {
        stream: "unknown".to_string(),
        payload_bytes: 12,
        event_count: 1,
        checksum_sha256: Some("hash".to_string()),
    };
    assert!(!route_telemetry(payload, &policy));
}

#[test]
fn rejects_empty_payload() {
    let policy = build_policy();
    let payload = TelemetryPayload {
        stream: "agent".to_string(),
        payload_bytes: 0,
        event_count: 1,
        checksum_sha256: Some("hash".to_string()),
    };
    assert!(!route_telemetry(payload, &policy));
}

#[test]
fn rejects_missing_checksum_when_required() {
    let policy = build_policy();
    let payload = TelemetryPayload {
        stream: "agent".to_string(),
        payload_bytes: 12,
        event_count: 1,
        checksum_sha256: None,
    };
    let config = TelemetryRouteConfig {
        max_payload_bytes: 128,
        min_payload_bytes: 1,
        max_event_count: 10,
        require_checksum: true,
    };
    let identity = AgentIdentity::new("asset-1".to_string(), "agent-1".to_string());
    let decision = route_telemetry_with_context(payload, &policy, &identity, &config);
    assert!(!decision.accepted);
}

#[test]
fn unknown_stream_reason_is_specific() {
    let policy = build_policy();
    let identity = AgentIdentity::new("asset-1".to_string(), "agent-1".to_string());
    // every other field is valid under the strict configuration
    let decision = route_telemetry_at(payload("unknown", 12), &policy, &identity, &strict_config(), 77);
    assert!(!decision.accepted);
    assert_eq!(decision.reason, "Telemetry stream not permitted by policy");
    assert_eq!(decision.stream, "unknown");
    assert_eq!(decision.payload_bytes, 12);
    assert_eq!(decision.routed_at_unix_ms, 77);
    // even with sizes and counts out of range, the stream rule decides first
    let mut bad = payload("unknown", 0);
    bad.event_count = 0;
    let decision = route_telemetry_at(bad, &policy, &identity, &strict_config(), 77);
    assert_eq!(decision.reason, "Telemetry stream not permitted by policy");
}

#[test]
fn each_rejection_has_its_reason() {
    let policy = build_policy();
    let identity = AgentIdentity::new("a".to_string(), "b".to_string());
    let config = strict_config();
    let reason = |p: TelemetryPayload| route_telemetry_at(p, &policy, &identity, &config, 1).reason;

    assert_eq!(reason(payload("", 12)), "Telemetry stream name invalid");
    assert_eq!(reason(payload(&"s".repeat(65), 12)), "Telemetry stream name invalid");
    assert_eq!(reason(payload("agent", 0)), "Telemetry payload too small");
    assert_eq!(reason(payload("agent", 129)), "Telemetry payload exceeds configured limit");
    let mut none = payload("agent", 12);
    none.event_count = 0;
    assert_eq!(reason(none), "Telemetry event count outside permitted range");
    let mut many = payload("agent", 12);
    many.event_count = 11;
    assert_eq!(reason(many), "Telemetry event count outside permitted range");
    let mut blank = payload("agent", 12);
    blank.checksum_sha256 = Some(" \t\u{3000}".to_string());
    assert_eq!(reason(blank), "Telemetry checksum required but missing");
    assert_eq!(reason(payload("agent", 128)), "Telemetry accepted");
}

#[test]
fn decision_echoes_accepted_payload() {
    let policy = build_policy();
    let identity = AgentIdentity::new("a".to_string(), "b".to_string());
    let decision = route_telemetry_at(payload("sensor", 12), &policy, &identity, &strict_config(), 5);
    assert!(decision.accepted);
    assert_eq!(decision.reason, "Telemetry accepted");
    assert_eq!(decision.stream, "sensor");
    assert_eq!(decision.payload_bytes, 12);
    assert_eq!(decision.routed_at_unix_ms, 5);
}

#[test]
fn sensor_scenario_under_default_bounds() {
    let policy = build_policy();
    assert!(route_telemetry(payload("sensor", 12), &policy));
    assert!(!route_telemetry(payload("unknown", 12), &policy));
    assert!(!route_telemetry(payload("agent", 0), &policy));
    assert!(route_telemetry(payload("agent", 8192), &policy));
    assert!(!route_telemetry(payload("agent", 8193), &policy));
}

#[test]
fn verdict_names_the_rule() {
    let policy = build_policy();
    let config = TelemetryRouteConfig::default_config();
    assert_eq!(evaluate_telemetry(&payload("unknown", 12), &policy, &config), TelemetryVerdict::StreamNotPermitted);
    assert_eq!(evaluate_telemetry(&payload("agent", 12), &policy, &config), TelemetryVerdict::Accepted);
    assert_eq!(config.max_payload_bytes, 8192);
    assert_eq!(config.min_payload_bytes, 1);
    assert_eq!(config.max_event_count, 2048);
    assert!(!config.require_checksum);
}
