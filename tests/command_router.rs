use agent_core::command_router::{route_command, SignedCommand};
use agent_core::policy::{ExecutionPolicy, PolicyBundle};

fn build_policy() -> PolicyBundle {
    PolicyBundle {
        schema_version: 1,
        version: "policy-test".to_string(),
        issued_at_unix_time_ms: 0,
        expires_at_unix_time_ms: u64::MAX,
        signing_key_id: "key-test".to_string(),
        signature: "signature".to_string(),
        execution: ExecutionPolicy {
            allowed_actions: vec!["patch-apply".to_string(), "script-run".to_string()],
            max_arguments: 2,
            max_argument_length: 8,
        },
        telemetry_streams: vec!["agent".to_string(), "sensor".to_string()],
    }
}

fn build_command() -> SignedCommand {
    SignedCommand {
        command_id: "cmd-1".to_string(),
        signed_payload: "signed".to_string(),
        action: "script-run".to_string(),
        arguments: vec!["-v".to_string()],
        not_before_unix_time_ms: 10,
        not_after_unix_time_ms: 20,
    }
}

#[test]
fn accepts_valid_command() {
    let policy = build_policy();
    let command = build_command();
    assert!(route_command(command, &policy, 15));
}

#[test]
fn rejects_disallowed_action() {
    let policy = build_policy();
    let mut command = build_command();
    command.action = "forbidden".to_string();
    assert!(!route_command(command, &policy, 15));
}

#[test]
fn rejects_argument_limit() {
    let policy = build_policy();
    let mut command = build_command();
    command.arguments = vec!["one".to_string(), "two".to_string(), "three".to_string()];
    assert!(!route_command(command, &policy, 15));
}

#[test]
fn rejects_time_window() {
    let policy = build_policy();
    let mut command = build_command();
    command.not_before_unix_time_ms = 30;
    command.not_after_unix_time_ms = 40;
    assert!(!route_command(command, &policy, 20));
}

#[test]
fn rejects_after_window_closes() {
    let policy = build_policy();
    assert!(!route_command(build_command(), &policy, 25));
}

#[test]
fn window_bounds_are_inclusive() {
    let policy = build_policy();
    assert!(route_command(build_command(), &policy, 10));
    assert!(route_command(build_command(), &policy, 20));
    assert!(!route_command(build_command(), &policy, 9));
    assert!(!route_command(build_command(), &policy, 21));
}

#[test]
fn rejects_inverted_window() {
    let policy = build_policy();
    let mut command = build_command();
    command.not_before_unix_time_ms = 20;
    command.not_after_unix_time_ms = 10;
    assert!(!route_command(command, &policy, 15));
}

#[test]
fn rejects_long_or_empty_argument() {
    let policy = build_policy();
    let mut command = build_command();
    command.arguments = vec!["123456789".to_string()];
    assert!(!route_command(command, &policy, 15));
    let mut command = build_command();
    command.arguments = vec!["12345678".to_string()];
    assert!(route_command(command, &policy, 15));
    let mut command = build_command();
    command.arguments = vec![String::new()];
    assert!(!route_command(command, &policy, 15));
}

#[test]
fn rejects_malformed_identifiers() {
    let policy = build_policy();
    let mut command = build_command();
    command.command_id = String::new();
    assert!(!route_command(command, &policy, 15));
    let mut command = build_command();
    command.command_id = "c".repeat(129);
    assert!(!route_command(command, &policy, 15));
    let mut command = build_command();
    command.signed_payload = "p".repeat(8193);
    assert!(!route_command(command, &policy, 15));
}
