use agent_core::envelope::{Envelope, EnvelopePayload, ExecutionCommand};
use agent_core::ipc::{IpcServer, IPC_SCHEMA_VERSION};
use agent_core::ipc_router::route_proto_envelope;
use agent_core::ipc_validation::{validate_payload_size, validate_proto_envelope, validate_schema_version, EnvelopeMeta};
use agent_core::policy::{ExecutionPolicy, PolicyBundle};
use agent_core::rate_limit::RateLimiter;

fn build_policy() -> PolicyBundle {
    PolicyBundle {
        schema_version: 1,
        version: "policy-test".to_string(),
        issued_at_unix_time_ms: 0,
        expires_at_unix_time_ms: u64::MAX,
        signing_key_id: "key-test".to_string(),
        signature: "signature".to_string(),
        execution: ExecutionPolicy {
            allowed_actions: vec!["script-run".to_string()],
            max_arguments: 2,
            max_argument_length: 8,
        },
        telemetry_streams: vec!["agent".to_string(), "sensor".to_string()],
    }
}

// Wire size of the heartbeat envelope below: between 1 and 1024 bytes.
const HEARTBEAT_ENVELOPE_LEN: usize = 34;

fn heartbeat_envelope() -> Envelope {
    Envelope {
        schema_version: 1,
        asset_id: "asset".to_string(),
        agent_id: "agent".to_string(),
        unix_time_ms: 1,
        payload: Some(EnvelopePayload::HealthHeartbeat),
        encoded_len: HEARTBEAT_ENVELOPE_LEN,
    }
}

fn command_envelope(action: &str, not_before: u64, not_after: u64) -> Envelope {
    Envelope {
        schema_version: 1,
        asset_id: "asset".to_string(),
        agent_id: "agent".to_string(),
        unix_time_ms: 1,
        payload: Some(EnvelopePayload::ExecutionCommand(ExecutionCommand {
            command_id: "cmd".to_string(),
            signed_blob: "signed".to_string(),
            action: action.to_string(),
            arguments: vec![],
            not_before_unix_time_ms: not_before,
            not_after_unix_time_ms: not_after,
        })),
        encoded_len: 40,
    }
}

#[test]
fn validates_schema_version() {
    assert!(validate_schema_version(1, 1));
    assert!(!validate_schema_version(2, 1));
}

#[test]
fn validates_payload_size() {
    assert!(validate_payload_size(10, 100));
    assert!(!validate_payload_size(101, 100));
}

#[test]
fn validates_proto_envelope() {
    let envelope = heartbeat_envelope();
    assert!(validate_proto_envelope(&envelope, 1, 1024));
    assert!(!validate_proto_envelope(&envelope, 2, 1024));
    assert!(!validate_proto_envelope(&envelope, 1, 1));
}

#[test]
fn rejects_envelope_without_payload() {
    let mut envelope = heartbeat_envelope();
    envelope.payload = None;
    assert!(!validate_proto_envelope(&envelope, 1, 1024));
    assert!(!route_proto_envelope(&envelope, &build_policy(), 1));
}

#[test]
fn routes_sensor_event() {
    let policy = build_policy();
    let envelope = Envelope {
        schema_version: 1,
        asset_id: "asset".to_string(),
        agent_id: "agent".to_string(),
        unix_time_ms: 1,
        payload: Some(EnvelopePayload::SensorEvent),
        encoded_len: 16,
    };
    assert!(route_proto_envelope(&envelope, &policy, 1));
}

#[test]
fn rejects_disallowed_command() {
    let policy = build_policy();
    let envelope = command_envelope("forbidden", 1, 2);
    assert!(!route_proto_envelope(&envelope, &policy, 1));
}

#[test]
fn routes_allowed_command_inside_window() {
    let policy = build_policy();
    assert!(route_proto_envelope(&command_envelope("script-run", 1, 2), &policy, 1));
    assert!(!route_proto_envelope(&command_envelope("script-run", 1, 2), &policy, 3));
}

#[test]
fn agent_stream_needs_policy_permission() {
    let mut policy = build_policy();
    assert!(route_proto_envelope(&heartbeat_envelope(), &policy, 1));
    policy.telemetry_streams = vec!["sensor".to_string()];
    assert!(!route_proto_envelope(&heartbeat_envelope(), &policy, 1));
    let mut oversized = heartbeat_envelope();
    oversized.encoded_len = 8193;
    assert!(!route_proto_envelope(&oversized, &build_policy(), 1));
}

#[test]
fn server_gates_on_shape_and_rate() {
    let mut server = IpcServer::new("pipe".to_string(), 1024, RateLimiter::new(2), build_policy());
    assert_eq!(IPC_SCHEMA_VERSION, 1);
    let bad = EnvelopeMeta { schema_version: 2, payload_bytes: 10 };
    assert!(!server.validate_envelope_at(&bad, 0));
    let big = EnvelopeMeta { schema_version: 1, payload_bytes: 1025 };
    assert!(!server.validate_envelope_at(&big, 0));
    let good = EnvelopeMeta { schema_version: 1, payload_bytes: 1024 };
    assert!(server.validate_envelope_at(&good, 0));
    assert!(server.validate_envelope_at(&good, 1));
    assert!(!server.validate_envelope_at(&good, 2));
    assert!(server.validate_envelope_at(&good, 60_000));
}

#[test]
fn server_handles_envelopes() {
    let mut server = IpcServer::new("pipe".to_string(), 1024, RateLimiter::new(1), build_policy());
    server.start();
    assert!(server.validate_proto(&heartbeat_envelope()));
    assert!(server.handle_proto_at(&heartbeat_envelope(), 0, 1));
    // the quota of the window is spent
    assert!(!server.handle_proto_at(&heartbeat_envelope(), 1, 1));
    let mut wrong = heartbeat_envelope();
    wrong.schema_version = 3;
    assert!(!server.handle_proto_at(&wrong, 70_000, 1));
    // a shape rejection used no admission
    assert!(server.handle_proto_at(&heartbeat_envelope(), 70_000, 1));
}

#[test]
fn server_handles_with_clocks() {
    let mut server = IpcServer::new("pipe".to_string(), 1024, RateLimiter::new(5), build_policy());
    assert!(server.handle_proto(&heartbeat_envelope()));
    let good = EnvelopeMeta { schema_version: 1, payload_bytes: 1 };
    assert!(server.validate_envelope(&good));
}
