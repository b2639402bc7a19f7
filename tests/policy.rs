use agent_core::policy::{ExecutionPolicy, PolicyBundle, PolicyValidationOptions};

fn build_valid_policy() -> PolicyBundle {
    PolicyBundle {
        schema_version: 1,
        version: "policy-1".to_string(),
        issued_at_unix_time_ms: 0,
        expires_at_unix_time_ms: u64::MAX,
        signing_key_id: "key-1".to_string(),
        signature: "placeholder".to_string(),
        execution: ExecutionPolicy {
            allowed_actions: vec!["patch-apply".to_string(), "script-run".to_string()],
            max_arguments: 4,
            max_argument_length: 64,
        },
        telemetry_streams: vec!["agent".to_string(), "sensor".to_string()],
    }
}

fn signed_options(key: &str) -> PolicyValidationOptions {
    PolicyValidationOptions {
        signing_key: Some(key.to_string()),
        expected_key_id: None,
        allow_unsigned: false,
    }
}

fn unsigned_options() -> PolicyValidationOptions {
    PolicyValidationOptions {
        signing_key: None,
        expected_key_id: None,
        allow_unsigned: true,
    }
}

#[test]
fn validates_when_unsigned_allowed() {
    let policy = build_valid_policy();
    let options = PolicyValidationOptions {
        signing_key: None,
        expected_key_id: None,
        allow_unsigned: true,
    };
    assert!(policy.validate(1, &options));
}

#[test]
fn rejects_when_unsigned_disallowed() {
    let policy = build_valid_policy();
    let options = PolicyValidationOptions {
        signing_key: None,
        expected_key_id: None,
        allow_unsigned: false,
    };
    assert!(!policy.validate(1, &options));
}

#[test]
fn rejects_unsorted_lists() {
    let mut policy = build_valid_policy();
    policy.execution.allowed_actions = vec!["script-run".to_string(), "patch-apply".to_string()];
    let options = PolicyValidationOptions {
        signing_key: None,
        expected_key_id: None,
        allow_unsigned: true,
    };
    assert!(!policy.validate(1, &options));
}

#[test]
fn validates_with_signature_key() {
    let mut policy = build_valid_policy();
    let signing_key = "unit-test-key";
    assert!(policy.sign_with_key(signing_key));
    let options = PolicyValidationOptions {
        signing_key: Some(signing_key.to_string()),
        expected_key_id: None,
        allow_unsigned: false,
    };
    assert!(policy.validate(1, &options));
}

#[test]
fn rejects_signing_when_unsorted() {
    let mut policy = build_valid_policy();
    policy.execution.allowed_actions = vec!["script-run".to_string(), "patch-apply".to_string()];
    assert!(!policy.sign_with_key("unit-test-key"));
}

#[test]
fn rejects_when_signature_mismatch() {
    let mut policy = build_valid_policy();
    assert!(policy.sign_with_key("unit-test-key"));
    let options = PolicyValidationOptions {
        signing_key: Some("other-key".to_string()),
        expected_key_id: None,
        allow_unsigned: false,
    };
    assert!(!policy.validate(1, &options));
}

#[test]
fn signature_is_base64_of_a_sha256_tag() {
    let mut policy = build_valid_policy();
    assert!(policy.sign_with_key("unit-test-key"));
    assert_eq!(policy.signature.len(), 44);
    assert!(policy.signature.ends_with('='));
    assert_ne!(policy.signature, "placeholder");
}

#[test]
fn signing_is_deterministic() {
    let mut first = build_valid_policy();
    let mut second = build_valid_policy();
    assert!(first.sign_with_key("k"));
    assert!(second.sign_with_key("k"));
    assert_eq!(first.signature, second.signature);
    let mut third = build_valid_policy();
    assert!(third.sign_with_key("other"));
    assert_ne!(first.signature, third.signature);
}

#[test]
fn signed_bundle_validates_across_its_window() {
    let mut policy = build_valid_policy();
    policy.issued_at_unix_time_ms = 100;
    policy.expires_at_unix_time_ms = 200;
    assert!(policy.sign_with_key("window-key"));
    let options = signed_options("window-key");
    assert!(policy.validate(100, &options));
    assert!(policy.validate(150, &options));
    assert!(policy.validate(200, &options));
    assert!(!policy.validate(99, &options));
    assert!(!policy.validate(201, &options));
}

#[test]
fn malformed_bundle_is_neither_signed_nor_validated() {
    let mut policy = build_valid_policy();
    policy.schema_version = 0;
    assert!(!policy.sign_with_key("k"));
    assert_eq!(policy.signature, "placeholder");
    assert!(!policy.validate(1, &signed_options("k")));
}

#[test]
fn duplicate_streams_are_rejected() {
    let mut policy = build_valid_policy();
    policy.telemetry_streams = vec!["agent".to_string(), "agent".to_string()];
    assert!(!policy.validate(1, &unsigned_options()));
    assert!(!policy.sign_with_key("k"));
}

#[test]
fn duplicate_actions_are_rejected() {
    let mut policy = build_valid_policy();
    policy.execution.allowed_actions = vec!["patch-apply".to_string(), "patch-apply".to_string()];
    assert!(!policy.validate(1, &unsigned_options()));
    assert!(!policy.sign_with_key("k"));
}

#[test]
fn unsorted_streams_are_rejected() {
    let mut policy = build_valid_policy();
    policy.telemetry_streams = vec!["sensor".to_string(), "agent".to_string()];
    assert!(!policy.validate(1, &unsigned_options()));
    assert!(!policy.sign_with_key("k"));
}

#[test]
fn tampering_after_signing_fails_verification() {
    let mut policy = build_valid_policy();
    assert!(policy.sign_with_key("k"));
    let options = signed_options("k");
    assert!(policy.validate(1, &options));

    let mut appended = policy.clone();
    appended.execution.allowed_actions.push("zap".to_string());
    assert!(!appended.validate(1, &options));

    let mut version = policy.clone();
    version.version = "policy-2".to_string();
    assert!(!version.validate(1, &options));

    let mut limits = policy.clone();
    limits.execution.max_arguments = 5;
    assert!(!limits.validate(1, &options));

    let mut streams = policy.clone();
    streams.telemetry_streams = vec!["agent".to_string()];
    assert!(!streams.validate(1, &options));

    let mut split = build_valid_policy();
    split.telemetry_streams = vec!["a".to_string(), "b".to_string()];
    assert!(split.sign_with_key("k"));
    assert!(split.validate(1, &options));
    split.telemetry_streams = vec!["a,b".to_string()];
    assert!(!split.validate(1, &options));

    let mut joined_version = build_valid_policy();
    joined_version.signing_key_id = "k|x".to_string();
    assert!(joined_version.sign_with_key("k"));
    joined_version.signing_key_id = "k".to_string();
    joined_version.version = "policy-1|x".to_string();
    assert!(!joined_version.validate(1, &options));

    let mut expiry = policy.clone();
    expiry.expires_at_unix_time_ms = 1000;
    assert!(!expiry.validate(1, &options));
}

#[test]
fn rejects_mismatched_key_id() {
    let policy = build_valid_policy();
    let mut options = unsigned_options();
    options.expected_key_id = Some("key-2".to_string());
    assert!(!policy.validate(1, &options));
    options.expected_key_id = Some("key-1".to_string());
    assert!(policy.validate(1, &options));
}

#[test]
fn rejects_bad_action_names_and_limits() {
    let mut policy = build_valid_policy();
    policy.execution.allowed_actions = vec!["Patch".to_string()];
    assert!(!policy.validate(1, &unsigned_options()));

    let mut policy = build_valid_policy();
    policy.execution.allowed_actions = vec!["a_b-c".to_string()];
    assert!(policy.validate(1, &unsigned_options()));

    let mut policy = build_valid_policy();
    policy.execution.max_argument_length = 0;
    assert!(!policy.validate(1, &unsigned_options()));

    let mut policy = build_valid_policy();
    policy.execution.allowed_actions = vec![];
    assert!(!policy.validate(1, &unsigned_options()));

    let mut policy = build_valid_policy();
    policy.version = "v".repeat(65);
    assert!(!policy.validate(1, &unsigned_options()));

    let mut policy = build_valid_policy();
    policy.version = "v".repeat(64);
    assert!(policy.validate(1, &unsigned_options()));
}

#[test]
fn rejects_inverted_validity_window() {
    let mut policy = build_valid_policy();
    policy.issued_at_unix_time_ms = 10;
    policy.expires_at_unix_time_ms = 5;
    assert!(!policy.validate(7, &unsigned_options()));
}

#[test]
fn allows_action_is_membership() {
    let policy = build_valid_policy();
    assert!(policy.allows_action("patch-apply"));
    assert!(policy.allows_action("script-run"));
    assert!(!policy.allows_action("script"));
    assert!(!policy.allows_action(""));
}

#[test]
fn placeholder_bundle_holds_defaults() {
    let policy = PolicyBundle::placeholder();
    assert_eq!(policy.schema_version, 1);
    assert_eq!(policy.version, "policy-placeholder");
    assert_eq!(policy.execution.allowed_actions, vec!["patch-apply".to_string(), "script-run".to_string()]);
    assert_eq!(policy.telemetry_streams, vec!["agent".to_string(), "sensor".to_string()]);
    assert_eq!(policy.expires_at_unix_time_ms, u64::MAX);
    assert!(policy.validate(1, &unsigned_options()));
    let mut signed = policy.clone();
    assert!(signed.sign_with_key("k"));
    assert!(signed.validate(1, &signed_options("k")));
}

#[test]
fn signing_needs_a_bounded_signature_field() {
    let mut policy = build_valid_policy();
    policy.signature = String::new();
    assert!(!policy.sign_with_key("k"));
    policy.signature = "s".repeat(8193);
    assert!(!policy.sign_with_key("k"));
    policy.signature = "s".repeat(8192);
    assert!(policy.sign_with_key("k"));
    assert!(policy.validate(1, &signed_options("k")));
}
