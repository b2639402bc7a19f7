//! Self-audit controls and their decisions over observed values.

use vstd::prelude::*;
use vstd::utf8::encode_utf8;

use crate::digest::{append_bytes, append_le_u64, hex_of, le_bytes, sha256_hex, sha256_of};
use crate::policy::names_of;
use crate::text::{decimal, decimal_string, is_blank, is_blank_str, parse_u64, parsed_u64};

verus! {

/// Outcome of a compliance check, with a reference to its evidence.
#[derive(Debug, Clone)]
pub struct ComplianceResult {
    pub control_id: String,
    pub control_title: String,
    pub passed: bool,
    pub status: ComplianceStatus,
    pub evidence_ref: String,
    pub checked_at_unix_ms: u64,
    pub findings: Vec<String>,
}

#[derive(Debug, Clone, Copy, PartialEq, Eq, Structural)]
pub enum ComplianceStatus {
    Pass,
    Fail,
    NotApplicable,
}

/// What a check looks at.
#[derive(Debug, Clone)]
pub enum ComplianceCheckKind {
    EnvVarRequired { name: String },
    PathExists { path: String, must_be_file: bool, must_be_dir: bool },
    NumericMax { name: String, max_value: u64 },
    NumericMin { name: String, min_value: u64 },
}

/// One control of the self-audit.
#[derive(Debug, Clone)]
pub struct ComplianceCheck {
    pub id: String,
    pub title: String,
    pub description: String,
    pub kind: ComplianceCheckKind,
}

/// Which controls the self-audit runs.
#[derive(Debug, Clone)]
pub struct ComplianceConfig {
    pub required_env: Vec<String>,
    pub required_paths: Vec<String>,
    pub max_payload_bytes: Option<u64>,
    pub min_payload_bytes: Option<u64>,
}

/// What the file system says of a path.
#[derive(Debug, Clone, Copy)]
pub struct PathFacts {
    pub is_file: bool,
    pub is_dir: bool,
}

/// What was read for a check: an environment variable's value, or a path's
/// metadata; `None` when it was absent.
#[derive(Debug, Clone)]
pub enum Observation {
    Env(Option<String>),
    Path(Option<PathFacts>),
}

/// The variable that the payload-limit controls read.
pub open spec fn payload_limit_var() -> Seq<char> {
    "AGENT_MAX_PAYLOAD_BYTES"@
}

pub open spec fn env_check_at(c: ComplianceCheck, name: Seq<char>) -> bool {
    &&& c.id@ == "CMP-ENV-"@ + name
    &&& c.title@ == "Environment variable "@ + name + " configured"@
    &&& c.description@ == "Required runtime configuration must be present."@
    &&& c.kind matches ComplianceCheckKind::EnvVarRequired { name: n } && n@ == name
}

pub open spec fn path_check_at(c: ComplianceCheck, path: Seq<char>) -> bool {
    &&& c.id@ == "CMP-PATH-"@ + path
    &&& c.title@ == "Required path "@ + path + " available"@
    &&& c.description@ == "Runtime artefacts should exist for auditability."@
    &&& c.kind matches ComplianceCheckKind::PathExists { path: p, must_be_file: f, must_be_dir: d } && p@
        == path && f && !d
}

pub open spec fn max_check_at(c: ComplianceCheck, max_value: u64) -> bool {
    &&& c.id@ == "CMP-MAX-PAYLOAD"@
    &&& c.title@ == "Maximum payload limit enforced"@
    &&& c.description@ == "Payload size limits should be defined to reduce risk."@
    &&& c.kind matches ComplianceCheckKind::NumericMax { name: n, max_value: m } && n@ == payload_limit_var()
        && m == max_value
}

pub open spec fn min_check_at(c: ComplianceCheck, min_value: u64) -> bool {
    &&& c.id@ == "CMP-MIN-PAYLOAD"@
    &&& c.title@ == "Minimum payload limit enforced"@
    &&& c.description@ == "Payload limits should avoid underflow or zero values."@
    &&& c.kind matches ComplianceCheckKind::NumericMin { name: n, min_value: m } && n@ == payload_limit_var()
        && m == min_value
}

/// The controls for `config`: one per required variable, one per required
/// path, then the payload maximum and minimum when configured.
pub open spec fn planned_checks(checks: Seq<ComplianceCheck>, config: &ComplianceConfig) -> bool {
    let e = config.required_env@.len() as int;
    let p = config.required_paths@.len() as int;
    let m: int = if config.max_payload_bytes is Some {
        1
    } else {
        0
    };
    let n: int = if config.min_payload_bytes is Some {
        1
    } else {
        0
    };
    &&& checks.len() == e + p + m + n
    &&& forall|i: int| 0 <= i < e ==> env_check_at(#[trigger] checks[i], config.required_env@[i]@)
    &&& forall|i: int| 0 <= i < p ==> path_check_at(#[trigger] checks[e + i], config.required_paths@[i]@)
    &&& config.max_payload_bytes matches Some(v) ==> max_check_at(checks[e + p], v)
    &&& config.min_payload_bytes matches Some(v) ==> min_check_at(checks[e + p + m], v)
}

/// The controls for `config`.
pub fn build_checks(config: &ComplianceConfig) -> (r: Vec<ComplianceCheck>)
    ensures
        planned_checks(r@, config),
{
    let mut checks: Vec<ComplianceCheck> = Vec::new();
    let env = &config.required_env;
    let mut i: usize = 0;
    while i < env.len()
        invariant
            env == &config.required_env,
            i <= env@.len(),
            checks@.len() == i,
            forall|k: int| 0 <= k < i ==> env_check_at(#[trigger] checks@[k], env@[k]@),
        decreases env.len() - i,
    {
        let name = &env[i];
        let id = String::from_str("CMP-ENV-").concat(name.as_str());
        let title = String::from_str("Environment variable ").concat(name.as_str()).concat(" configured");
        checks.push(
            ComplianceCheck {
                id,
                title,
                description: String::from_str("Required runtime configuration must be present."),
                kind: ComplianceCheckKind::EnvVarRequired { name: name.clone() },
            },
        );
        i = i + 1;
    }
    let paths = &config.required_paths;
    let mut j: usize = 0;
    while j < paths.len()
        invariant
            env == &config.required_env,
            paths == &config.required_paths,
            j <= paths@.len(),
            checks@.len() == env@.len() + j,
            forall|k: int| 0 <= k < env@.len() ==> env_check_at(#[trigger] checks@[k], env@[k]@),
            forall|k: int| 0 <= k < j ==> path_check_at(#[trigger] checks@[env@.len() + k], paths@[k]@),
        decreases paths.len() - j,
    {
        let path = &paths[j];
        let id = String::from_str("CMP-PATH-").concat(path.as_str());
        let title = String::from_str("Required path ").concat(path.as_str()).concat(" available");
        checks.push(
            ComplianceCheck {
                id,
                title,
                description: String::from_str("Runtime artefacts should exist for auditability."),
                kind: ComplianceCheckKind::PathExists { path: path.clone(), must_be_file: true, must_be_dir: false },
            },
        );
        j = j + 1;
    }
    if let Some(max_value) = config.max_payload_bytes {
        checks.push(
            ComplianceCheck {
                id: String::from_str("CMP-MAX-PAYLOAD"),
                title: String::from_str("Maximum payload limit enforced"),
                description: String::from_str("Payload size limits should be defined to reduce risk."),
                kind: ComplianceCheckKind::NumericMax {
                    name: String::from_str("AGENT_MAX_PAYLOAD_BYTES"),
                    max_value,
                },
            },
        );
    }
    if let Some(min_value) = config.min_payload_bytes {
        checks.push(
            ComplianceCheck {
                id: String::from_str("CMP-MIN-PAYLOAD"),
                title: String::from_str("Minimum payload limit enforced"),
                description: String::from_str("Payload limits should avoid underflow or zero values."),
                kind: ComplianceCheckKind::NumericMin {
                    name: String::from_str("AGENT_MAX_PAYLOAD_BYTES"),
                    min_value,
                },
            },
        );
    }
    checks
}

/// The number an observation of a variable holds, if it holds one.
pub open spec fn observed_number(obs: Observation) -> Option<u64> {
    match obs {
        Observation::Env(Some(v)) => parsed_u64(v@),
        _ => None,
    }
}

/// Whether the check passes on what was observed, and the findings.
pub open spec fn check_outcome(kind: ComplianceCheckKind, obs: Observation) -> (bool, Seq<Seq<char>>) {
    match kind {
        ComplianceCheckKind::EnvVarRequired { name } => match obs {
            Observation::Env(Some(v)) => if !is_blank(v@) {
                (true, Seq::empty())
            } else {
                (false, seq![name@ + " is configured but empty."@])
            },
            _ => (false, seq![name@ + " is missing."@]),
        },
        ComplianceCheckKind::PathExists { must_be_file, must_be_dir, .. } => match obs {
            Observation::Path(Some(facts)) => if must_be_file && !facts.is_file {
                (false, seq!["Path exists but is not a file."@])
            } else if must_be_dir && !facts.is_dir {
                (false, seq!["Path exists but is not a directory."@])
            } else {
                (true, Seq::empty())
            },
            _ => (false, seq!["Required path does not exist."@]),
        },
        ComplianceCheckKind::NumericMax { name, max_value } => match observed_number(obs) {
            Some(v) => if v <= max_value {
                (true, Seq::empty())
            } else {
                (
                    false,
                    seq![name@ + " exceeds allowed maximum of "@ + decimal(max_value as nat) + " (found "@
                        + decimal(v as nat) + ")."@],
                )
            },
            None => (false, seq![name@ + " is missing or invalid."@]),
        },
        ComplianceCheckKind::NumericMin { name, min_value } => match observed_number(obs) {
            Some(v) => if v >= min_value {
                (true, Seq::empty())
            } else {
                (
                    false,
                    seq![name@ + " below minimum of "@ + decimal(min_value as nat) + " (found "@ + decimal(
                        v as nat,
                    ) + ")."@],
                )
            },
            None => (false, seq![name@ + " is missing or invalid."@]),
        },
    }
}

pub open spec fn findings_bytes(findings: Seq<Seq<char>>) -> Seq<u8>
    decreases findings.len(),
{
    if findings.len() == 0 {
        Seq::empty()
    } else {
        findings_bytes(findings.drop_last()) + encode_utf8(findings.last())
    }
}

/// The evidence reference of a result: the control id and a SHA-256 over the
/// control, the time and the findings.
pub open spec fn evidence_ref_of(check: ComplianceCheck, checked_at: u64, findings: Seq<Seq<char>>) -> Seq<char> {
    "cmp-"@ + check.id@ + "-"@ + hex_of(
        sha256_of(
            encode_utf8(check.id@) + encode_utf8(check.title@) + encode_utf8(check.description@)
                + le_bytes(checked_at) + findings_bytes(findings),
        ),
    )
}

fn decide(kind: &ComplianceCheckKind, obs: &Observation) -> (r: (bool, Vec<String>))
    ensures
        r.0 == check_outcome(*kind, *obs).0,
        names_of(r.1@) == check_outcome(*kind, *obs).1,
{
    let mut findings: Vec<String> = Vec::new();
    let passed = match kind {
        ComplianceCheckKind::EnvVarRequired { name } => match obs {
            Observation::Env(Some(v)) => {
                if !is_blank_str(v.as_str()) {
                    true
                } else {
                    findings.push(name.clone().concat(" is configured but empty."));
                    false
                }
            },
            _ => {
                findings.push(name.clone().concat(" is missing."));
                false
            },
        },
        ComplianceCheckKind::PathExists { must_be_file, must_be_dir, .. } => match obs {
            Observation::Path(Some(facts)) => {
                if *must_be_file && !facts.is_file {
                    findings.push(String::from_str("Path exists but is not a file."));
                    false
                } else if *must_be_dir && !facts.is_dir {
                    findings.push(String::from_str("Path exists but is not a directory."));
                    false
                } else {
                    true
                }
            },
            _ => {
                findings.push(String::from_str("Required path does not exist."));
                false
            },
        },
        ComplianceCheckKind::NumericMax { name, max_value } => {
            let number = match obs {
                Observation::Env(Some(v)) => parse_u64(v.as_str()),
                _ => None,
            };
            match number {
                Some(v) => {
                    if v <= *max_value {
                        true
                    } else {
                        let limit = decimal_string(*max_value);
                        let found = decimal_string(v);
                        findings.push(
                            name.clone().concat(" exceeds allowed maximum of ").concat(limit.as_str()).concat(
                                " (found ",
                            ).concat(found.as_str()).concat(")."),
                        );
                        false
                    }
                },
                None => {
                    findings.push(name.clone().concat(" is missing or invalid."));
                    false
                },
            }
        },
        ComplianceCheckKind::NumericMin { name, min_value } => {
            let number = match obs {
                Observation::Env(Some(v)) => parse_u64(v.as_str()),
                _ => None,
            };
            match number {
                Some(v) => {
                    if v >= *min_value {
                        true
                    } else {
                        let limit = decimal_string(*min_value);
                        let found = decimal_string(v);
                        findings.push(
                            name.clone().concat(" below minimum of ").concat(limit.as_str()).concat(
                                " (found ",
                            ).concat(found.as_str()).concat(")."),
                        );
                        false
                    }
                },
                None => {
                    findings.push(name.clone().concat(" is missing or invalid."));
                    false
                },
            }
        },
    };
    assert(names_of(findings@) =~= check_outcome(*kind, *obs).1);
    (passed, findings)
}

fn build_evidence_ref(check: &ComplianceCheck, checked_at_unix_ms: u64, findings: &Vec<String>) -> (r: String)
    ensures
        r@ == evidence_ref_of(*check, checked_at_unix_ms, names_of(findings@)),
{
    let mut covered: Vec<u8> = Vec::new();
    append_bytes(&mut covered, check.id.as_str().as_bytes());
    append_bytes(&mut covered, check.title.as_str().as_bytes());
    append_bytes(&mut covered, check.description.as_str().as_bytes());
    append_le_u64(&mut covered, checked_at_unix_ms);
    let ghost head = covered@;
    let mut i: usize = 0;
    while i < findings.len()
        invariant
            i <= findings@.len(),
            covered@ == head + findings_bytes(names_of(findings@.subrange(0, i as int))),
        decreases findings.len() - i,
    {
        let ghost next = names_of(findings@.subrange(0, i + 1));
        assert(next.drop_last() =~= names_of(findings@.subrange(0, i as int)));
        append_bytes(&mut covered, findings[i].as_str().as_bytes());
        i = i + 1;
        assert(covered@ =~= head + findings_bytes(names_of(findings@.subrange(0, i as int))));
    }
    assert(findings@.subrange(0, findings@.len() as int) =~= findings@);
    let digest = sha256_hex(covered.as_slice());
    let mut r = String::from_str("cmp-");
    r.append(check.id.as_str());
    r.append("-");
    r.append(digest.as_str());
    assert(covered@ =~= encode_utf8(check.id@) + encode_utf8(check.title@) + encode_utf8(check.description@)
        + le_bytes(checked_at_unix_ms) + findings_bytes(names_of(findings@)));
    r
}

/// The result of `check` on what was observed, at `checked_at_unix_ms`.
pub fn evaluate_check(check: &ComplianceCheck, observation: &Observation, checked_at_unix_ms: u64) -> (r:
    ComplianceResult)
    ensures
        r.passed == check_outcome(check.kind, *observation).0,
        r.status == (if r.passed {
            ComplianceStatus::Pass
        } else {
            ComplianceStatus::Fail
        }),
        names_of(r.findings@) == check_outcome(check.kind, *observation).1,
        r.control_id == check.id,
        r.control_title == check.title,
        r.checked_at_unix_ms == checked_at_unix_ms,
        r.evidence_ref@ == evidence_ref_of(*check, checked_at_unix_ms, names_of(r.findings@)),
{
    let (passed, findings) = decide(&check.kind, observation);
    let status = if passed {
        ComplianceStatus::Pass
    } else {
        ComplianceStatus::Fail
    };
    let evidence_ref = build_evidence_ref(check, checked_at_unix_ms, &findings);
    ComplianceResult {
        control_id: check.id.clone(),
        control_title: check.title.clone(),
        passed,
        status,
        evidence_ref,
        checked_at_unix_ms,
        findings,
    }
}

} // verus!
