use agent_core::digest::{hex_encode, sha256_hex};
use agent_core::siem::{
    ingest_events, parse_event_line, parse_fields, parse_severity, estimate_event_bytes, prepare_batch_at, prepare_telemetry_batch_from_events, sanitise_event, sanitise_text,
    TelemetryConfig, TelemetryEvent, TelemetryField, TelemetrySeverity,
};

fn config() -> TelemetryConfig {
    TelemetryConfig {
        stream: "sensor".to_string(),
        max_events: 512,
        max_event_bytes: 16 * 1024,
        max_batch_bytes: 512 * 1024,
        max_field_count: 32,
        max_field_key_len: 128,
        max_field_value_len: 8192,
    }
}

fn event(id: &str, message: &str) -> TelemetryEvent {
    TelemetryEvent {
        event_id: id.to_string(),
        stream: "sensor".to_string(),
        category: "process".to_string(),
        severity: TelemetrySeverity::High,
        timestamp_unix_ms: 7,
        message: message.to_string(),
        fields: vec![TelemetryField { key: "pid".to_string(), value: "42".to_string() }],
    }
}

#[test]
fn hex_and_digest_known_values() {
    assert_eq!(hex_encode(&[0x00, 0xab, 0x0f]), "00ab0f");
    assert_eq!(sha256_hex(b""), "e3b0c44298fc1c149afbf4c8996fb92427ae41e4649b934ca495991b7852b855");
    assert_eq!(sha256_hex(b"abc"), "ba7816bf8f01cfea414140de5dae2223b00361a396177a9cb410ff61f20015ad");
}

#[test]
fn text_is_cleaned_cut_and_trimmed() {
    assert_eq!(sanitise_text("  hello\u{1b} world  ", 100), "hello world");
    assert_eq!(sanitise_text("abcdef", 3), "abc");
    assert_eq!(sanitise_text("ab   cdef", 4), "ab");
    assert_eq!(sanitise_text("\u{0}\u{7f}", 10), "");
}

#[test]
fn events_with_bad_identifiers_are_dropped() {
    let mut bad = event("", "m");
    assert!(sanitise_event(&bad, &config()).is_none());
    bad = event("e", "m");
    bad.category = "c".repeat(129);
    assert!(sanitise_event(&bad, &config()).is_none());
}

#[test]
fn fields_are_filtered() {
    let mut e = event("e1", "m");
    e.fields = vec![
        TelemetryField { key: "".to_string(), value: "x".to_string() },
        TelemetryField { key: "k".to_string(), value: "\u{1}".to_string() },
        TelemetryField { key: "user".to_string(), value: " bob ".to_string() },
    ];
    let cleaned = sanitise_event(&e, &config()).unwrap();
    assert_eq!(cleaned.fields.len(), 1);
    assert_eq!(cleaned.fields[0].key, "user");
    assert_eq!(cleaned.fields[0].value, "bob");
    let mut few = config();
    few.max_field_count = 2;
    assert!(sanitise_event(&e, &few).unwrap().fields.is_empty());
}

#[test]
fn event_size_counts_bytes() {
    // "e1" + "sensor" + "process" + "hello" + "pid" + "42"
    assert_eq!(estimate_event_bytes(&event("e1", "hello")), 2 + 6 + 7 + 5 + 3 + 2);
}

#[test]
fn batch_counts_and_checksums() {
    let events = vec![event("e1", "hello"), event("", "dropped"), event("e3", "world")];
    let batch = prepare_batch_at(&events, &config(), 1234);
    assert_eq!(batch.batch_id, "siem-sensor-1234");
    assert_eq!(batch.stream, "sensor");
    assert_eq!(batch.event_count, 2);
    assert_eq!(batch.dropped_count, 1);
    assert_eq!(batch.total_payload_bytes, 25 + 25);
    assert_eq!(batch.created_at_unix_ms, 1234);

    let mut covered = Vec::new();
    for (id, message) in [("e1", "hello"), ("e3", "world")] {
        covered.extend_from_slice(id.as_bytes());
        covered.extend_from_slice(b"sensor");
        covered.extend_from_slice(b"process");
        covered.extend_from_slice(&7u64.to_le_bytes());
        covered.extend_from_slice(message.as_bytes());
        covered.extend_from_slice(b"pid");
        covered.extend_from_slice(b"42");
    }
    assert_eq!(batch.checksum_sha256, sha256_hex(&covered));
}

#[test]
fn batch_bounds_drop_events() {
    let events = vec![event("e1", "hello"), event("e2", "hello"), event("e3", "hello")];
    let mut tight = config();
    tight.max_batch_bytes = 50;
    let batch = prepare_batch_at(&events, &tight, 1);
    assert_eq!((batch.event_count, batch.dropped_count, batch.total_payload_bytes), (2, 1, 50));

    let mut small = config();
    small.max_event_bytes = 24;
    let batch = prepare_batch_at(&events, &small, 1);
    assert_eq!((batch.event_count, batch.dropped_count), (0, 3));
    assert_eq!(batch.checksum_sha256, sha256_hex(b""));

    let mut few = config();
    few.max_events = 1;
    let batch = prepare_telemetry_batch_from_events(&events, &few);
    assert_eq!((batch.event_count, batch.dropped_count), (1, 0));
}

#[test]
fn parses_full_event_line() {
    let event = parse_event_line("  process | HIGH | started x | pid=42; user = bob ;bad;=x;k= ", 3, "sensor", 99)
        .unwrap();
    assert_eq!(event.event_id, "evt-99-3");
    assert_eq!(event.stream, "sensor");
    assert_eq!(event.category, "process");
    assert_eq!(event.severity, TelemetrySeverity::High);
    assert_eq!(event.timestamp_unix_ms, 99);
    assert_eq!(event.message, "started x");
    let fields: Vec<(&str, &str)> = event.fields.iter().map(|f| (f.key.as_str(), f.value.as_str())).collect();
    assert_eq!(fields, vec![("pid", "42"), ("user", "bob")]);
}

#[test]
fn parses_partial_and_blank_lines() {
    assert!(parse_event_line("   \t", 0, "sensor", 1).is_none());
    let event = parse_event_line("auth", 0, "agent", 1).unwrap();
    assert_eq!(event.category, "auth");
    assert_eq!(event.severity, TelemetrySeverity::Informational);
    assert_eq!(event.message, "");
    assert!(event.fields.is_empty());
    assert_eq!(parse_severity("Critical"), TelemetrySeverity::Critical);
    assert_eq!(parse_severity("MEDIUM"), TelemetrySeverity::Medium);
    assert_eq!(parse_severity("low"), TelemetrySeverity::Low);
    assert_eq!(parse_severity("urgent"), TelemetrySeverity::Informational);
    let fields = parse_fields("a=b=c");
    assert_eq!((fields[0].key.as_str(), fields[0].value.as_str()), ("a", "b=c"));
}

#[test]
fn ingests_numbered_lines() {
    let events = ingest_events("net|low|a\r\n\nfile|critical|b|p=1\n", "sensor", 5);
    let ids: Vec<&str> = events.iter().map(|e| e.event_id.as_str()).collect();
    assert_eq!(ids, vec!["evt-5-0", "evt-5-2"]);
    assert_eq!(events[0].message, "a");
    assert_eq!(events[1].severity, TelemetrySeverity::Critical);
    let config = TelemetryConfig::default_config();
    assert_eq!(config.max_events, 512);
    assert_eq!(config.stream, "sensor");
}
