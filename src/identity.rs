//! Agent identity and trust-anchor verification decisions.

use vstd::prelude::*;

verus! {

/// Identifies the local agent instance in telemetry and control-plane
/// messages.
#[derive(Debug, Clone)]
pub struct AgentIdentity {
    pub asset_id: String,
    pub agent_id: String,
}

impl AgentIdentity {
    pub fn new(asset_id: String, agent_id: String) -> (r: Self)
        ensures
            r.asset_id == asset_id,
            r.agent_id == agent_id,
    {
        AgentIdentity { asset_id, agent_id }
    }
}

} // verus!

verus! {

/// Expected trust anchor with an optional pinned SHA-256 digest. The path is
/// held as text.
#[derive(Debug, Clone)]
pub struct TrustAnchor {
    pub path: String,
    pub sha256: Option<String>,
}

/// Which trust anchors to check, under which root.
#[derive(Debug, Clone)]
pub struct TrustBundleConfig {
    pub root_dir: String,
    pub anchors: Vec<TrustAnchor>,
    pub allow_missing: bool,
}

/// Result of verifying the trust anchors.
#[derive(Debug, Clone)]
pub struct TrustBundleReport {
    pub checked_at_unix_ms: u64,
    pub verified: bool,
    pub anchors: Vec<TrustAnchorStatus>,
    pub failures: Vec<String>,
}

#[derive(Debug, Clone)]
pub struct TrustAnchorStatus {
    pub path: String,
    pub exists: bool,
    pub hash_match: Option<bool>,
}

/// What the file system showed of an anchor that resolved inside the root.
#[derive(Debug, Clone)]
pub enum AnchorFile {
    Missing,
    NotAFile,
    /// A regular file, with its SHA-256 digest in hexadecimal when a pin was
    /// given (`None` when no pin asked for it), or the error hashing it.
    File { digest: Option<Result<String, String>> },
}

/// What was read of one anchor: the path as shown, and the file when the
/// path resolved inside the root.
#[derive(Debug, Clone)]
pub struct AnchorProbe {
    pub display: String,
    pub file: Option<AnchorFile>,
}

/// Equal but for ASCII case.
pub open spec fn same_digest(a: Seq<char>, b: Seq<char>) -> bool {
    crate::evidence::eq_ignore_ascii_case(a, b)
}

/// The status of one anchor and the failures it adds.
pub open spec fn anchor_outcome(pin: Option<Seq<char>>, probe: AnchorProbe, allow_missing: bool) -> (
    (bool, Option<bool>),
    Seq<Seq<char>>,
) {
    let unmatched: Option<bool> = if pin is Some {
        Some(false)
    } else {
        None
    };
    match probe.file {
        None => ((false, unmatched), seq!["Trust anchor path outside allowed root."@]),
        Some(AnchorFile::Missing) => if allow_missing {
            ((false, unmatched), Seq::empty())
        } else {
            ((false, unmatched), seq!["Trust anchor path does not exist."@])
        },
        Some(AnchorFile::NotAFile) => ((false, unmatched), seq!["Trust anchor path is not a file."@]),
        Some(AnchorFile::File { digest }) => match pin {
            None => ((true, None), Seq::empty()),
            Some(p) => match digest {
                Some(Ok(d)) => if same_digest(p, d@) {
                    ((true, Some(true)), Seq::empty())
                } else {
                    ((true, Some(false)), seq!["Trust anchor hash mismatch detected."@])
                },
                Some(Err(e)) => ((true, Some(false)), seq!["Failed to hash trust anchor: "@ + e@]),
                None => ((true, Some(false)), seq!["Failed to hash trust anchor: no digest"@]),
            },
        },
    }
}

/// Decides on one anchor from what was read of it.
pub fn assess_anchor(anchor: &TrustAnchor, probe: &AnchorProbe, allow_missing: bool) -> (r: (
    TrustAnchorStatus,
    Vec<String>,
))
    ensures
        ({
            let (facts, failures) = anchor_outcome(pin_of(*anchor), *probe, allow_missing);
            &&& r.0.path == probe.display
            &&& (r.0.exists, r.0.hash_match) == facts
            &&& crate::policy::names_of(r.1@) == failures
        }),
{
    let unmatched: Option<bool> = if anchor.sha256.is_some() {
        Some(false)
    } else {
        None
    };
    let mut failures: Vec<String> = Vec::new();
    let (exists, hash_match) = match &probe.file {
        None => {
            failures.push(String::from_str("Trust anchor path outside allowed root."));
            (false, unmatched)
        },
        Some(AnchorFile::Missing) => {
            if !allow_missing {
                failures.push(String::from_str("Trust anchor path does not exist."));
            }
            (false, unmatched)
        },
        Some(AnchorFile::NotAFile) => {
            failures.push(String::from_str("Trust anchor path is not a file."));
            (false, unmatched)
        },
        Some(AnchorFile::File { digest }) => match &anchor.sha256 {
            None => (true, None),
            Some(pin) => match digest {
                Some(Ok(d)) => {
                    if crate::evidence::eq_ignore_case(pin.as_str(), d.as_str()) {
                        (true, Some(true))
                    } else {
                        failures.push(String::from_str("Trust anchor hash mismatch detected."));
                        (true, Some(false))
                    }
                },
                Some(Err(e)) => {
                    failures.push(String::from_str("Failed to hash trust anchor: ").concat(e.as_str()));
                    (true, Some(false))
                },
                None => {
                    failures.push(String::from_str("Failed to hash trust anchor: no digest"));
                    (true, Some(false))
                },
            },
        },
    };
    let ghost pin = pin_of(*anchor);
    assert(crate::policy::names_of(failures@) =~= anchor_outcome(pin, *probe, allow_missing).1);
    (TrustAnchorStatus { path: probe.display.clone(), exists, hash_match }, failures)
}

pub open spec fn pin_of(anchor: TrustAnchor) -> Option<Seq<char>> {
    match anchor.sha256 {
        Some(p) => Some(p@),
        None => None,
    }
}

/// The failures of all anchors, in order.
pub open spec fn all_failures(anchors: Seq<TrustAnchor>, probes: Seq<AnchorProbe>, allow_missing: bool) -> Seq<
    Seq<char>,
>
    decreases anchors.len(),
{
    if anchors.len() == 0 {
        Seq::empty()
    } else {
        let n = anchors.len() - 1;
        all_failures(anchors.drop_last(), probes, allow_missing) + anchor_outcome(
            pin_of(anchors[n]),
            probes[n],
            allow_missing,
        ).1
    }
}

/// The report over all anchors at `checked_at_unix_ms`: verified exactly
/// when anchors are configured and none of them failed.
pub fn verify_trust_bundle_with_probes(
    config: &TrustBundleConfig,
    probes: &Vec<AnchorProbe>,
    checked_at_unix_ms: u64,
) -> (r: TrustBundleReport)
    requires
        probes@.len() == config.anchors@.len(),
    ensures
        r.checked_at_unix_ms == checked_at_unix_ms,
        r.anchors@.len() == config.anchors@.len(),
        forall|i: int|
            0 <= i < r.anchors@.len() ==> {
                let (facts, _) = anchor_outcome(pin_of(config.anchors@[i]), probes@[i], config.allow_missing);
                &&& (#[trigger] r.anchors@[i]).path == probes@[i].display
                &&& (r.anchors@[i].exists, r.anchors@[i].hash_match) == facts
            },
        config.anchors@.len() == 0 ==> crate::policy::names_of(r.failures@) == seq![
            "No trust anchors configured; set TRUST_BUNDLE_PATHS."@,
        ],
        config.anchors@.len() > 0 ==> crate::policy::names_of(r.failures@) == all_failures(
            config.anchors@,
            probes@,
            config.allow_missing,
        ),
        r.verified == (r.failures@.len() == 0),
{
    let mut failures: Vec<String> = Vec::new();
    let mut statuses: Vec<TrustAnchorStatus> = Vec::new();
    if config.anchors.len() == 0 {
        failures.push(String::from_str("No trust anchors configured; set TRUST_BUNDLE_PATHS."));
        assert(crate::policy::names_of(failures@) =~= seq![
            "No trust anchors configured; set TRUST_BUNDLE_PATHS."@,
        ]);
        return TrustBundleReport { checked_at_unix_ms, verified: false, anchors: statuses, failures };
    }
    let anchors = &config.anchors;
    let mut i: usize = 0;
    while i < anchors.len()
        invariant
            anchors == &config.anchors,
            probes@.len() == anchors@.len(),
            i <= anchors@.len(),
            statuses@.len() == i,
            forall|k: int|
                0 <= k < i ==> {
                    let (facts, _) = anchor_outcome(pin_of(anchors@[k]), probes@[k], config.allow_missing);
                    &&& (#[trigger] statuses@[k]).path == probes@[k].display
                    &&& (statuses@[k].exists, statuses@[k].hash_match) == facts
                },
            crate::policy::names_of(failures@) == all_failures(
                anchors@.subrange(0, i as int),
                probes@,
                config.allow_missing,
            ),
        decreases anchors.len() - i,
    {
        let (status, mut found) = assess_anchor(&anchors[i], &probes[i], config.allow_missing);
        let ghost before = failures@;
        let ghost sub = anchors@.subrange(0, i + 1);
        assert(sub.drop_last() =~= anchors@.subrange(0, i as int));
        statuses.push(status);
        let ghost added = found@;
        failures.append(&mut found);
        assert(crate::policy::names_of(failures@) =~= crate::policy::names_of(before) + crate::policy::names_of(
            added,
        ));
        i = i + 1;
    }
    assert(anchors@.subrange(0, anchors@.len() as int) =~= anchors@);
    let verified = failures.len() == 0;
    TrustBundleReport { checked_at_unix_ms, verified, anchors: statuses, failures }
}

} // verus!
