use agent_core::edr::{evaluate_rules, evaluate_rules_for_events, EdrConfig, EdrEvent, EdrEventKind};
use agent_core::normalise::{normalise_path, normalise_text};

fn process(id: &str, image: &str, command_line: &str, signed: bool) -> EdrEvent {
    EdrEvent {
        event_id: id.to_string(),
        timestamp_unix_ms: 1,
        kind: EdrEventKind::ProcessStart {
            image_path: image.to_string(),
            command_line: command_line.to_string(),
            parent_image: "explorer.exe".to_string(),
            is_signed: signed,
        },
    }
}

fn connection(id: &str, port: u16) -> EdrEvent {
    EdrEvent {
        event_id: id.to_string(),
        timestamp_unix_ms: 2,
        kind: EdrEventKind::NetworkConnection {
            destination_ip: "203.0.113.10".to_string(),
            destination_port: port,
            protocol: "tcp".to_string(),
            process_name: "svchost.exe".to_string(),
        },
    }
}

#[test]
fn sample_events_raise_three_detections() {
    let detections = evaluate_rules();
    let ids: Vec<&str> = detections.iter().map(|d| d.detection_id.as_str()).collect();
    assert_eq!(
        ids,
        vec![
            "det-EDR-PSH-ENC-evt-psh-001",
            "det-EDR-SUSP-PORT-evt-net-002",
            "det-EDR-SENSITIVE-WRITE-evt-file-003",
        ]
    );
    let confidences: Vec<u8> = detections.iter().map(|d| d.confidence).collect();
    assert_eq!(confidences, vec![70, 75, 55]);
    let severities: Vec<u8> = detections.iter().map(|d| d.severity).collect();
    assert_eq!(severities, vec![8, 6, 5]);
    assert_eq!(detections[0].title, "Encoded PowerShell invocation");
    assert_eq!(detections[1].event_id, "evt-net-002");
}

#[test]
fn unsigned_binary_from_temp_fires_with_high_confidence() {
    let config = EdrConfig::default_config();
    let events = vec![process("e1", "  C:\\Users\\bob\\AppData\\x.exe ", "x.exe", false)];
    let detections = evaluate_rules_for_events(&events, &config);
    assert_eq!(detections.len(), 1);
    assert_eq!(detections[0].rule_id, "EDR-TEMP-UNSIGNED");
    assert_eq!(detections[0].confidence, 80);
    let signed = vec![process("e2", "C:\\Users\\bob\\x.exe", "x.exe", true)];
    assert!(evaluate_rules_for_events(&signed, &config).is_empty());
}

#[test]
fn encoded_command_flag_raises_confidence() {
    let config = EdrConfig::default_config();
    let events = vec![process("e1", "c:/tools/a.exe", "PowerShell -EncodedCommand AAA", true)];
    let detections = evaluate_rules_for_events(&events, &config);
    assert_eq!(detections.len(), 1);
    assert_eq!(detections[0].confidence, 85);
}

#[test]
fn other_ports_have_lower_confidence() {
    let config = EdrConfig::default_config();
    let detections = evaluate_rules_for_events(&[connection("n1", 3389), connection("n2", 443)], &config);
    assert_eq!(detections.len(), 1);
    assert_eq!(detections[0].confidence, 60);
}

#[test]
fn repeated_event_ids_are_reported_once() {
    let config = EdrConfig::default_config();
    let detections = evaluate_rules_for_events(&[connection("n1", 4444), connection("n1", 1337)], &config);
    assert_eq!(detections.len(), 1);
    assert_eq!(detections[0].detection_id, "det-EDR-SUSP-PORT-n1");
}

#[test]
fn detections_stop_at_the_cap() {
    let mut config = EdrConfig::default_config();
    config.max_detections_per_cycle = 2;
    let events = vec![connection("a", 4444), connection("b", 4444), connection("c", 4444)];
    assert_eq!(evaluate_rules_for_events(&events, &config).len(), 2);
    config.max_detections_per_cycle = 0;
    assert_eq!(evaluate_rules_for_events(&events, &config).len(), 1);
}

#[test]
fn sensitive_write_uses_configured_paths() {
    let mut config = EdrConfig::default_config();
    config.sensitive_paths = vec!["D:\\Secrets\\".to_string()];
    let write = EdrEvent {
        event_id: "f1".to_string(),
        timestamp_unix_ms: 3,
        kind: EdrEventKind::FileWrite {
            path: "d:/secrets/keys.txt".to_string(),
            size_bytes: 10,
            originating_process: "cmd.exe".to_string(),
        },
    };
    let detections = evaluate_rules_for_events(&[write], &config);
    assert_eq!(detections.len(), 1);
    assert_eq!(detections[0].confidence, 55);
}

#[test]
fn normalisation_lowercases_and_cleans() {
    let text: String = normalise_text("PowerShell\u{7}\tRUN").into_iter().collect();
    assert_eq!(text, "powershellrun");
    let path: String = normalise_path("  C:\\Windows\\TEMP\\\\ ").into_iter().collect();
    assert_eq!(path, "c:/windows/temp");
    let path: String = normalise_path("\u{3000}/ÉTC/").into_iter().collect();
    assert_eq!(path, "/étc");
}
