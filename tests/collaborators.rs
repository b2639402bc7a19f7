use agent_core::compliance::{
    build_checks, evaluate_check, ComplianceCheckKind, ComplianceConfig, ComplianceStatus, Observation, PathFacts,
};
use agent_core::digest::sha256_hex;
use agent_core::evidence::{
    assemble_record, classify_item, empty_hash, is_extension_allowed, item_id, EvidenceConfig, EvidenceItem,
    EvidenceOutcome, EvidenceStatus, ItemResult, ItemVerdict,
};
use agent_core::identity::{verify_trust_bundle_with_probes, AnchorFile, AnchorProbe, TrustAnchor, TrustBundleConfig};
use agent_core::text::parse_u64;
use agent_core::update::{stage_plan, unavailable_plan, StagedArtifact, UpdateArtifact, UpdateConfig, UpdateManifest};
use agent_core::uplink::{join_endpoint, normalise_fallback};

fn audit_config() -> ComplianceConfig {
    ComplianceConfig {
        required_env: vec!["AGENT_ID".to_string()],
        required_paths: vec!["/etc/agent.conf".to_string()],
        max_payload_bytes: Some(100),
        min_payload_bytes: Some(10),
    }
}

#[test]
fn audit_plans_one_check_per_control() {
    let checks = build_checks(&audit_config());
    let ids: Vec<&str> = checks.iter().map(|c| c.id.as_str()).collect();
    assert_eq!(ids, vec!["CMP-ENV-AGENT_ID", "CMP-PATH-/etc/agent.conf", "CMP-MAX-PAYLOAD", "CMP-MIN-PAYLOAD"]);
    assert_eq!(checks[0].title, "Environment variable AGENT_ID configured");
    assert_eq!(checks[1].title, "Required path /etc/agent.conf available");
    assert!(matches!(checks[2].kind, ComplianceCheckKind::NumericMax { max_value: 100, .. }));
    let none = ComplianceConfig { required_env: vec![], required_paths: vec![], max_payload_bytes: None, min_payload_bytes: None };
    assert!(build_checks(&none).is_empty());
}

#[test]
fn audit_decides_from_observations() {
    let checks = build_checks(&audit_config());
    let ok = evaluate_check(&checks[0], &Observation::Env(Some("agent-7".to_string())), 5);
    assert!(ok.passed);
    assert_eq!(ok.status, ComplianceStatus::Pass);
    assert!(ok.findings.is_empty());
    assert_eq!(ok.control_id, "CMP-ENV-AGENT_ID");

    let blank = evaluate_check(&checks[0], &Observation::Env(Some("  ".to_string())), 5);
    assert_eq!(blank.findings, vec!["AGENT_ID is configured but empty.".to_string()]);
    assert_eq!(blank.status, ComplianceStatus::Fail);
    let missing = evaluate_check(&checks[0], &Observation::Env(None), 5);
    assert_eq!(missing.findings, vec!["AGENT_ID is missing.".to_string()]);

    let dir = evaluate_check(&checks[1], &Observation::Path(Some(PathFacts { is_file: false, is_dir: true })), 5);
    assert_eq!(dir.findings, vec!["Path exists but is not a file.".to_string()]);
    let absent = evaluate_check(&checks[1], &Observation::Path(None), 5);
    assert_eq!(absent.findings, vec!["Required path does not exist.".to_string()]);

    let over = evaluate_check(&checks[2], &Observation::Env(Some("250".to_string())), 5);
    assert_eq!(
        over.findings,
        vec!["AGENT_MAX_PAYLOAD_BYTES exceeds allowed maximum of 100 (found 250).".to_string()]
    );
    let under = evaluate_check(&checks[3], &Observation::Env(Some("+3".to_string())), 5);
    assert_eq!(under.findings, vec!["AGENT_MAX_PAYLOAD_BYTES below minimum of 10 (found 3).".to_string()]);
    let junk = evaluate_check(&checks[3], &Observation::Env(Some("12x".to_string())), 5);
    assert_eq!(junk.findings, vec!["AGENT_MAX_PAYLOAD_BYTES is missing or invalid.".to_string()]);
    assert!(evaluate_check(&checks[2], &Observation::Env(Some("100".to_string())), 5).passed);
}

#[test]
fn audit_evidence_reference_hashes_control_and_findings() {
    let checks = build_checks(&audit_config());
    let result = evaluate_check(&checks[0], &Observation::Env(None), 9);
    let mut covered = Vec::new();
    covered.extend_from_slice(checks[0].id.as_bytes());
    covered.extend_from_slice(checks[0].title.as_bytes());
    covered.extend_from_slice(checks[0].description.as_bytes());
    covered.extend_from_slice(&9u64.to_le_bytes());
    covered.extend_from_slice(b"AGENT_ID is missing.");
    assert_eq!(result.evidence_ref, format!("cmp-CMP-ENV-AGENT_ID-{}", sha256_hex(&covered)));
}

#[test]
fn decimal_numbers_parse_like_std() {
    assert_eq!(parse_u64("0"), Some(0));
    assert_eq!(parse_u64("+42"), Some(42));
    assert_eq!(parse_u64("18446744073709551615"), Some(u64::MAX));
    assert_eq!(parse_u64("18446744073709551616"), None);
    assert_eq!(parse_u64(""), None);
    assert_eq!(parse_u64("+"), None);
    assert_eq!(parse_u64("-1"), None);
    assert_eq!(parse_u64(" 1"), None);
}

fn evidence_config(paths: usize) -> EvidenceConfig {
    EvidenceConfig {
        root_dir: ".".to_string(),
        max_item_bytes: 100,
        max_total_bytes: 150,
        max_items: 2,
        allowed_extensions: vec!["log".to_string(), "TXT".to_string()],
        evidence_paths: (0..paths).map(|i| format!("f{}.log", i)).collect(),
    }
}

fn collected(index: usize, size: u64) -> ItemResult {
    ItemResult::Done {
        item: EvidenceItem {
            item_id: item_id(index),
            path: format!("/root/f{}.log", index),
            sha256: "ab".to_string(),
            size_bytes: size,
            collected_at_unix_ms: 1,
            outcome: EvidenceOutcome::Collected,
        },
        bytes: size,
        collected: true,
    }
}

#[test]
fn evidence_items_are_classified() {
    assert_eq!(classify_item(false, true, true, 1, 10), ItemVerdict::OutsideRoot);
    assert_eq!(classify_item(true, false, true, 1, 10), ItemVerdict::DisallowedExtension);
    assert_eq!(classify_item(true, true, false, 1, 10), ItemVerdict::NotRegularFile);
    assert_eq!(classify_item(true, true, true, 11, 10), ItemVerdict::TooLarge);
    assert_eq!(classify_item(true, true, true, 10, 10), ItemVerdict::Collect);
    assert_eq!(ItemVerdict::TooLarge.reason_text(), "File exceeds per-item limit");
    let allowed = vec!["log".to_string(), "TXT".to_string()];
    assert!(is_extension_allowed(Some("LOG"), &allowed));
    assert!(is_extension_allowed(Some("txt"), &allowed));
    assert!(!is_extension_allowed(Some("exe"), &allowed));
    assert!(!is_extension_allowed(None, &allowed));
    assert!(is_extension_allowed(None, &vec![]));
}

#[test]
fn evidence_record_without_paths_is_empty() {
    let record = assemble_record(&[], &evidence_config(0), 77);
    assert_eq!(record.evidence_id, "evd-77");
    assert_eq!(record.status, EvidenceStatus::Empty);
    assert_eq!(record.sha256, empty_hash());
    assert_eq!(record.sha256, sha256_hex(b""));
    assert_eq!(record.notes.len(), 1);
}

#[test]
fn evidence_record_applies_limits() {
    let record = assemble_record(&[collected(0, 40), collected(1, 40)], &evidence_config(2), 1);
    assert_eq!(record.status, EvidenceStatus::Collected);
    assert_eq!(record.total_bytes, 80);
    assert_eq!(record.items.len(), 2);

    let record = assemble_record(&[collected(0, 40), collected(1, 40), collected(2, 40)], &evidence_config(3), 1);
    assert_eq!(record.items.len(), 2);
    assert_eq!(record.notes, vec!["Maximum evidence item count reached.".to_string()]);
    assert_eq!(record.status, EvidenceStatus::Partial);

    let record = assemble_record(&[collected(0, 90), collected(1, 90), collected(2, 1)], &evidence_config(3), 1);
    assert_eq!(record.total_bytes, 180);
    assert_eq!(record.notes, vec!["Maximum total evidence size reached.".to_string()]);

    let failed = ItemResult::Failed { path: "f0.log".to_string(), error: "denied".to_string() };
    let record = assemble_record(&[failed], &evidence_config(1), 1);
    assert_eq!(record.items[0].item_id, "item-0");
    assert_eq!(record.items[0].sha256, empty_hash());
    assert_eq!(record.notes, vec!["Failed to collect f0.log: denied".to_string()]);
    assert_eq!(record.status, EvidenceStatus::Partial);

    let mut manifest = Vec::new();
    manifest.extend_from_slice(b"item-0ab/root/f0.log");
    manifest.extend_from_slice(&40u64.to_le_bytes());
    let record = assemble_record(&[collected(0, 40)], &evidence_config(1), 1);
    assert_eq!(record.sha256, sha256_hex(&manifest));
}

#[test]
fn trust_report_collects_failures() {
    let config = TrustBundleConfig {
        root_dir: "/trust".to_string(),
        anchors: vec![
            TrustAnchor { path: "a.pem".to_string(), sha256: Some("ABCD".to_string()) },
            TrustAnchor { path: "b.pem".to_string(), sha256: None },
            TrustAnchor { path: "c.pem".to_string(), sha256: Some("ffff".to_string()) },
        ],
        allow_missing: false,
    };
    let probes = vec![
        AnchorProbe { display: "/trust/a.pem".to_string(), file: Some(AnchorFile::File { digest: Some(Ok("abcd".to_string())) }) },
        AnchorProbe { display: "/trust/b.pem".to_string(), file: Some(AnchorFile::Missing) },
        AnchorProbe { display: "c.pem".to_string(), file: None },
    ];
    let report = verify_trust_bundle_with_probes(&config, &probes, 3);
    assert!(!report.verified);
    assert_eq!(report.anchors[0].hash_match, Some(true));
    assert!(report.anchors[0].exists);
    assert!(!report.anchors[1].exists);
    assert_eq!(report.anchors[2].hash_match, Some(false));
    assert_eq!(
        report.failures,
        vec!["Trust anchor path does not exist.".to_string(), "Trust anchor path outside allowed root.".to_string()]
    );
    let empty = TrustBundleConfig { root_dir: ".".to_string(), anchors: vec![], allow_missing: true };
    let report = verify_trust_bundle_with_probes(&empty, &vec![], 3);
    assert!(!report.verified);
    assert_eq!(report.failures, vec!["No trust anchors configured; set TRUST_BUNDLE_PATHS.".to_string()]);
}

fn update_config() -> UpdateConfig {
    UpdateConfig {
        manifest_path: None,
        manifest_json: None,
        stage_dir: "./staging".to_string(),
        max_payload_bytes: 100,
        max_artifacts: 8,
        required_channel: Some("stable".to_string()),
        allow_prerelease: false,
        expected_manifest_sha256: Some("AA".to_string()),
    }
}

fn staged(name: &str, size: u64) -> Result<StagedArtifact, String> {
    Ok(StagedArtifact {
        name: name.to_string(),
        source_path: format!("/src/{}", name),
        staged_path: format!("./staging/{}", name),
        sha256: "00".to_string(),
        size_bytes: size,
        verified: true,
    })
}

#[test]
fn update_plan_warns_and_caps() {
    let manifest = UpdateManifest {
        version: "2.0".to_string(),
        channel: "beta".to_string(),
        prerelease: true,
        artifacts: vec!["a", "b", "c", "d"]
            .into_iter()
            .map(|n| UpdateArtifact { name: n.to_string(), path: n.to_string(), sha256: "00".to_string() })
            .collect(),
        previous_version: Some("1.0".to_string()),
    };
    let results = vec![staged("a", 60), Err("Artifact hash mismatch".to_string()), staged("c", 60), staged("d", 1)];
    let plan = stage_plan(manifest, "aa".to_string(), &results, &update_config(), 4);
    assert_eq!(
        plan.warnings,
        vec![
            "Manifest channel does not match required channel.".to_string(),
            "Prerelease manifest supplied but not permitted.".to_string(),
            "Artifact b skipped: Artifact hash mismatch".to_string(),
            "Staged payload exceeds maximum allowed size.".to_string(),
        ]
    );
    assert_eq!(plan.artifacts.len(), 1);
    assert_eq!(plan.artifacts[0].name, "a");
    assert_eq!(plan.total_bytes, 120);
    assert_eq!(plan.rollback.previous_version, Some("1.0".to_string()));
    assert!(plan.rollback.rollback_available);

    let plan = unavailable_plan(&update_config(), "Manifest JSON invalid: eof", 4);
    assert_eq!(plan.manifest_version, "unknown");
    assert_eq!(plan.warnings, vec!["Failed to load manifest: Manifest JSON invalid: eof".to_string()]);
    assert!(!plan.rollback.rollback_available);
}

#[test]
fn uplink_helpers() {
    assert_eq!(normalise_fallback("  ab ", "asset-9", "agent-local"), "asset-9");
    assert_eq!(normalise_fallback("abc", "", "x"), "abc");
    assert_eq!(normalise_fallback("", " ", "agent-local"), "agent-local");
    assert_eq!(join_endpoint("http://h/rmm//", "jobs"), "http://h/rmm/jobs");
    assert_eq!(join_endpoint("http://h/rmm", "/jobs"), "http://h/rmm/jobs");
    assert_eq!(join_endpoint("http://h/rmm", ""), "http://h/rmm/");
}

#[test]
fn intake_fields_fall_back() {
    let fields = agent_core::uplink::intake_fields("", "a", "host-9", "", "rel-1");
    assert_eq!(fields.tenant_id, "tamsil-agent");
    assert_eq!(fields.asset_id, "host-9");
    assert_eq!(fields.linked_object_id, "rel-1");
    assert_eq!(fields.immutable_reference, "ev-rel-1");
    let fields = agent_core::uplink::intake_fields("tenant-x", "asset-1", "s", "evd-1", "");
    assert_eq!(fields.linked_object_id, "evd-1");
    assert_eq!(fields.immutable_reference, "evd-1");
    assert_eq!(agent_core::uplink::rmm_evidence_type(""), "agent_evidence");
    assert_eq!(agent_core::uplink::rmm_evidence_type("log"), "log");
    assert!(!agent_core::uplink::reports_tenant(" \t"));
    assert!(agent_core::uplink::reports_tenant("t"));
}
