use agent_core::config::CoreConfig;
use agent_core::pipeline::PipelineStatus;
use agent_core::policy::{ExecutionPolicy, PolicyBundle};
use agent_core::rmm::{queue_execution_request, RmmConfig, RmmPendingCommand};
use agent_core::security::{validate_bounded_string, ValidationLimits};
use agent_core::service_registry::{ServiceDescriptor, ServiceRegistry};
use agent_core::watchdog::{handle_status, HealthProbe, HealthStatus, WatchdogAction, WatchdogConfig};

#[test]
fn bounded_strings() {
    assert!(validate_bounded_string("abc", 3));
    assert!(!validate_bounded_string("abcd", 3));
    assert!(!validate_bounded_string("", 3));
    // the bound counts bytes, not characters
    assert!(!validate_bounded_string("\u{e9}\u{e9}", 3));
    let limits = ValidationLimits::default_limits();
    assert_eq!(limits.max_command_id_len, 128);
    assert_eq!(limits.max_payload_len, 8192);
    assert_eq!(limits.max_stream_len, 64);
}

#[test]
fn pipeline_readiness() {
    let mut status = PipelineStatus::new();
    assert!(!status.is_fully_ready());
    status.mark_edr_ready();
    status.mark_siem_ready();
    status.mark_rmm_ready();
    assert!(!status.is_fully_ready());
    status.mark_vulnerability_ready();
    assert!(status.is_fully_ready());
}

#[test]
fn registry_keeps_order() {
    let mut registry = ServiceRegistry::new();
    registry.register(ServiceDescriptor {
        name: "agent-sensor".to_string(),
        version: "0.1.0".to_string(),
        ipc_endpoint: "sensor-pipe".to_string(),
    });
    registry.register(ServiceDescriptor {
        name: "agent-exec".to_string(),
        version: "0.1.0".to_string(),
        ipc_endpoint: "exec-pipe".to_string(),
    });
    let names: Vec<&str> = registry.list().iter().map(|s| s.name.as_str()).collect();
    assert_eq!(names, vec!["agent-sensor", "agent-exec"]);
    assert!(ServiceRegistry::default().list().is_empty());
}

#[test]
fn core_config_placeholder() {
    let config = CoreConfig::placeholder();
    assert_eq!(config.asset_id, "asset-placeholder");
    assert_eq!(config.agent_id, "agent-core");
    assert_eq!(config.ipc_pipe_name, r"\\.\pipe\tamsilcms-agent-core");
    assert_eq!(config.max_payload_bytes, 1024 * 1024);
}

fn rmm_policy() -> PolicyBundle {
    PolicyBundle {
        schema_version: 1,
        version: "p".to_string(),
        issued_at_unix_time_ms: 0,
        expires_at_unix_time_ms: u64::MAX,
        signing_key_id: "k".to_string(),
        signature: "s".to_string(),
        execution: ExecutionPolicy {
            allowed_actions: vec!["script-run".to_string()],
            max_arguments: 2,
            max_argument_length: 8,
        },
        telemetry_streams: vec!["agent".to_string()],
    }
}

fn pending() -> RmmPendingCommand {
    RmmPendingCommand {
        command_id: "cmd-9".to_string(),
        signed_payload: "blob".to_string(),
        action: "script-run".to_string(),
        arguments: vec!["-x".to_string()],
        expires_at_unix_ms: None,
        source: "policy-queue".to_string(),
    }
}

#[test]
fn rmm_request_admission() {
    let policy = rmm_policy();
    let config = RmmConfig::default_config();
    let request = queue_execution_request(&policy, pending(), &config, 1_000).unwrap();
    assert_eq!(request.command_id, "cmd-9");
    assert_eq!(request.requested_at_unix_ms, 1_000);
    assert_eq!(request.expires_at_unix_ms, 301_000);

    let mut lapsed = pending();
    lapsed.expires_at_unix_ms = Some(1_000);
    assert!(queue_execution_request(&policy, lapsed, &config, 1_000).is_none());

    let mut late = pending();
    late.expires_at_unix_ms = None;
    let request = queue_execution_request(&policy, late, &config, u64::MAX - 1).unwrap();
    assert_eq!(request.expires_at_unix_ms, u64::MAX);

    let mut forbidden = pending();
    forbidden.action = "patch-apply".to_string();
    assert!(queue_execution_request(&policy, forbidden, &config, 1_000).is_none());

    let mut long_arg = pending();
    long_arg.arguments = vec!["123456789".to_string()];
    assert!(queue_execution_request(&policy, long_arg, &config, 1_000).is_none());
}

#[test]
fn watchdog_restarts_after_grace_then_escalates() {
    let config = WatchdogConfig {
        interval_secs: 15,
        grace_misses: 1,
        max_restart_attempts: 1,
        runbook_url: None,
    };
    let mut probe = HealthProbe::new();
    let degraded = || HealthStatus::Degraded { reason: "slow".to_string() };
    assert_eq!(handle_status(&mut probe, &config, degraded()), WatchdogAction::Wait);
    assert_eq!(handle_status(&mut probe, &config, degraded()), WatchdogAction::Restart);
    assert_eq!(probe.restart_attempts, 1);
    assert_eq!(
        handle_status(&mut probe, &config, HealthStatus::Unreachable { reason: "gone".to_string() }),
        WatchdogAction::Escalate
    );
    assert_eq!(probe.consecutive_failures, 3);
    assert_eq!(handle_status(&mut probe, &config, HealthStatus::Healthy), WatchdogAction::Wait);
    assert_eq!(probe.consecutive_failures, 0);
    assert!(matches!(probe.last_status, Some(HealthStatus::Healthy)));
}

#[test]
fn comma_separated_lists() {
    assert_eq!(
        agent_core::config::parse_csv(" a , ,b,, c "),
        vec!["a".to_string(), "b".to_string(), "c".to_string()]
    );
    assert!(agent_core::config::parse_csv("").is_empty());
    assert_eq!(
        agent_core::config::parse_extensions(".log, ..txt ,.,json"),
        vec!["log".to_string(), "txt".to_string(), "json".to_string()]
    );
    assert_eq!(agent_core::config::parse_ports("4444, 1337,x,70000,+22"), vec![4444, 1337, 22]);
}
