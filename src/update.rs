//! Update staging rules: manifest warnings, artefact checks, size cap.

use vstd::prelude::*;

use crate::evidence::{empty_digest, empty_hash, eq_ignore_ascii_case, eq_ignore_case, sat_add};
use crate::policy::names_of;
use crate::text::{is_blank, is_blank_str};

verus! {

/// What staging an update produced.
#[derive(Debug, Clone)]
pub struct UpdatePlan {
    pub manifest_version: String,
    pub manifest_checksum: String,
    pub channel: String,
    pub staged_at_unix_ms: u64,
    pub stage_dir: String,
    pub total_bytes: u64,
    pub artifacts: Vec<StagedArtifact>,
    pub rollback: RollbackPlan,
    pub warnings: Vec<String>,
}

/// An artefact checked against its manifest digest and ready to stage.
#[derive(Debug, Clone)]
pub struct StagedArtifact {
    pub name: String,
    pub source_path: String,
    pub staged_path: String,
    pub sha256: String,
    pub size_bytes: u64,
    pub verified: bool,
}

#[derive(Debug, Clone)]
pub struct RollbackPlan {
    pub previous_version: Option<String>,
    pub rollback_available: bool,
    pub reason: String,
}

/// Where the manifest comes from and what it must satisfy. Paths are held as
/// text.
#[derive(Debug, Clone)]
pub struct UpdateConfig {
    pub manifest_path: Option<String>,
    pub manifest_json: Option<String>,
    pub stage_dir: String,
    pub max_payload_bytes: u64,
    pub max_artifacts: usize,
    pub required_channel: Option<String>,
    pub allow_prerelease: bool,
    pub expected_manifest_sha256: Option<String>,
}

/// The update manifest.
#[derive(Debug, Clone)]
pub struct UpdateManifest {
    pub version: String,
    pub channel: String,
    pub prerelease: bool,
    pub artifacts: Vec<UpdateArtifact>,
    pub previous_version: Option<String>,
}

#[derive(Debug, Clone)]
pub struct UpdateArtifact {
    pub name: String,
    pub path: String,
    pub sha256: String,
}

/// The warnings a manifest earns before any artefact is staged: a checksum
/// other than the expected one, a channel other than the required one, and a
/// prerelease that is not allowed.
pub open spec fn manifest_warnings_spec(manifest: &UpdateManifest, checksum: Seq<char>, config: &UpdateConfig) -> Seq<
    Seq<char>,
> {
    let w0: Seq<Seq<char>> = match config.expected_manifest_sha256 {
        Some(expected) => if !eq_ignore_ascii_case(expected@, checksum) {
            seq!["Manifest checksum mismatch detected."@]
        } else {
            Seq::empty()
        },
        None => Seq::empty(),
    };
    let w1: Seq<Seq<char>> = match config.required_channel {
        Some(required) => if manifest.channel@ != required@ {
            w0.push("Manifest channel does not match required channel."@)
        } else {
            w0
        },
        None => w0,
    };
    if manifest.prerelease && !config.allow_prerelease {
        w1.push("Prerelease manifest supplied but not permitted."@)
    } else {
        w1
    }
}

pub fn manifest_warnings(manifest: &UpdateManifest, checksum: &str, config: &UpdateConfig) -> (r: Vec<String>)
    ensures
        names_of(r@) == manifest_warnings_spec(manifest, checksum@, config),
{
    let mut warnings: Vec<String> = Vec::new();
    if let Some(expected) = &config.expected_manifest_sha256 {
        if !eq_ignore_case(expected.as_str(), checksum) {
            warnings.push(String::from_str("Manifest checksum mismatch detected."));
        }
    }
    let ghost w0 = names_of(warnings@);
    if let Some(required) = &config.required_channel {
        if !crate::text::str_equal(manifest.channel.as_str(), required.as_str()) {
            warnings.push(String::from_str("Manifest channel does not match required channel."));
            assert(names_of(warnings@) =~= w0.push("Manifest channel does not match required channel."@));
        }
    }
    let ghost w1 = names_of(warnings@);
    if manifest.prerelease && !config.allow_prerelease {
        warnings.push(String::from_str("Prerelease manifest supplied but not permitted."));
        assert(names_of(warnings@) =~= w1.push("Prerelease manifest supplied but not permitted."@));
    }
    assert(names_of(warnings@) =~= manifest_warnings_spec(manifest, checksum@, config));
    warnings
}

/// An artefact can be staged only under a name that is not blank.
pub fn artifact_name_ok(artifact: &UpdateArtifact) -> (r: bool)
    ensures
        r == !is_blank(artifact.name@),
{
    !is_blank_str(artifact.name.as_str())
}

/// The computed digest matches the manifest's, ignoring ASCII case.
pub fn digest_matches(computed: &str, expected: &str) -> (r: bool)
    ensures
        r == eq_ignore_ascii_case(computed@, expected@),
{
    eq_ignore_case(computed, expected)
}

/// The plan when no manifest could be loaded.
pub fn unavailable_plan(config: &UpdateConfig, error: &str, staged_at_unix_ms: u64) -> (r: UpdatePlan)
    ensures
        r.manifest_version@ == "unknown"@,
        r.manifest_checksum@ == empty_digest(),
        r.channel@ == "unknown"@,
        r.staged_at_unix_ms == staged_at_unix_ms,
        r.stage_dir == config.stage_dir,
        r.total_bytes == 0,
        r.artifacts@.len() == 0,
        r.rollback.previous_version is None,
        !r.rollback.rollback_available,
        r.rollback.reason@ == "Manifest unavailable"@,
        names_of(r.warnings@) == seq!["Failed to load manifest: "@ + error@],
{
    let mut warnings: Vec<String> = Vec::new();
    warnings.push(String::from_str("Failed to load manifest: ").concat(error));
    assert(names_of(warnings@) =~= seq!["Failed to load manifest: "@ + error@]);
    UpdatePlan {
        manifest_version: String::from_str("unknown"),
        manifest_checksum: empty_hash(),
        channel: String::from_str("unknown"),
        staged_at_unix_ms,
        stage_dir: config.stage_dir.clone(),
        total_bytes: 0,
        artifacts: Vec::new(),
        rollback: RollbackPlan {
            previous_version: None,
            rollback_available: false,
            reason: String::from_str("Manifest unavailable"),
        },
        warnings,
    }
}

/// What staging holds after some results were taken in.
pub struct StageTally {
    pub kept: Seq<int>,
    pub warnings: Seq<Seq<char>>,
    pub total: u64,
    pub stopped: bool,
}

/// The staging results taken in order: a staged artefact adds its size and
/// is kept unless the total then exceeds the limit, which ends staging with
/// a warning; a failure adds a warning naming the artefact.
pub open spec fn stage_tally(
    staged: Seq<Result<StagedArtifact, String>>,
    artifacts: Seq<UpdateArtifact>,
    config: &UpdateConfig,
    n: nat,
) -> StageTally
    decreases n,
{
    if n == 0 {
        StageTally { kept: Seq::empty(), warnings: Seq::empty(), total: 0, stopped: false }
    } else {
        let prev = stage_tally(staged, artifacts, config, (n - 1) as nat);
        if prev.stopped {
            prev
        } else {
            match staged[n - 1] {
                Ok(a) => {
                    let total = sat_add(prev.total, a.size_bytes);
                    if total > config.max_payload_bytes {
                        StageTally {
                            kept: prev.kept,
                            warnings: prev.warnings.push("Staged payload exceeds maximum allowed size."@),
                            total: total,
                            stopped: true,
                        }
                    } else {
                        StageTally { kept: prev.kept.push(n - 1), warnings: prev.warnings, total: total, stopped: false }
                    }
                },
                Err(e) => StageTally {
                    warnings: prev.warnings.push("Artifact "@ + artifacts[n - 1].name@ + " skipped: "@ + e@),
                    ..prev
                },
            }
        }
    }
}

/// The same artefact, field for field.
pub open spec fn same_artifact(a: StagedArtifact, b: StagedArtifact) -> bool {
    a.name@ == b.name@ && a.source_path@ == b.source_path@ && a.staged_path@ == b.staged_path@ && a.sha256@
        == b.sha256@ && a.size_bytes == b.size_bytes && a.verified == b.verified
}

/// `artifact` is the staged artefact that result `index` holds.
pub open spec fn holds_staged(staged: Seq<Result<StagedArtifact, String>>, index: int, artifact: StagedArtifact) -> bool {
    match staged[index] {
        Ok(a) => same_artifact(artifact, a),
        Err(_) => false,
    }
}

fn copy_artifact(a: &StagedArtifact) -> (r: StagedArtifact)
    ensures
        same_artifact(r, *a),
{
    StagedArtifact {
        name: a.name.clone(),
        source_path: a.source_path.clone(),
        staged_path: a.staged_path.clone(),
        sha256: a.sha256.clone(),
        size_bytes: a.size_bytes,
        verified: a.verified,
    }
}

/// The plan for a loaded manifest, given the results of staging its first
/// artefacts in order (at most `max_artifacts` of them).
pub fn stage_plan(
    manifest: UpdateManifest,
    manifest_checksum: String,
    staged: &Vec<Result<StagedArtifact, String>>,
    config: &UpdateConfig,
    staged_at_unix_ms: u64,
) -> (r: UpdatePlan)
    requires
        staged@.len() <= manifest.artifacts@.len(),
        staged@.len() <= config.max_artifacts,
    ensures
        ({
            let t = stage_tally(staged@, manifest.artifacts@, config, staged@.len());
            &&& names_of(r.warnings@) == manifest_warnings_spec(&manifest, manifest_checksum@, config)
                + t.warnings
            &&& r.total_bytes == t.total
            &&& r.artifacts@.len() == t.kept.len()
            &&& forall|k: int|
                0 <= k < t.kept.len() ==> holds_staged(staged@, t.kept[k], #[trigger] r.artifacts@[k])
        }),
        r.manifest_version == manifest.version,
        r.manifest_checksum == manifest_checksum,
        r.channel == manifest.channel,
        r.staged_at_unix_ms == staged_at_unix_ms,
        r.stage_dir == config.stage_dir,
        r.rollback.previous_version == manifest.previous_version,
        r.rollback.rollback_available,
        r.rollback.reason@ == "Rollback metadata prepared"@,
{
    let mut warnings = manifest_warnings(&manifest, manifest_checksum.as_str(), config);
    let ghost head = names_of(warnings@);
    let mut artifacts: Vec<StagedArtifact> = Vec::new();
    let mut total_bytes: u64 = 0;
    let mut stopped = false;
    let mut i: usize = 0;
    while i < staged.len()
        invariant
            i <= staged@.len(),
            staged@.len() <= manifest.artifacts@.len(),
            ({
                let t = stage_tally(staged@, manifest.artifacts@, config, i as nat);
                &&& names_of(warnings@) == head + t.warnings
                &&& total_bytes == t.total
                &&& stopped == t.stopped
                &&& artifacts@.len() == t.kept.len()
                &&& forall|k: int|
                    0 <= k < t.kept.len() ==> holds_staged(
                        staged@,
                        t.kept[k],
                        #[trigger] artifacts@[k],
                    )
            }),
        decreases staged.len() - i,
    {
        let ghost before = warnings@;
        let ghost before_artifacts = artifacts@;
        let ghost t0 = stage_tally(staged@, manifest.artifacts@, config, i as nat);
        let ghost t1 = stage_tally(staged@, manifest.artifacts@, config, (i + 1) as nat);
        if !stopped {
            match &staged[i] {
                Ok(a) => {
                    let total = total_bytes.saturating_add(a.size_bytes);
                    total_bytes = total;
                    if total > config.max_payload_bytes {
                        warnings.push(String::from_str("Staged payload exceeds maximum allowed size."));
                        stopped = true;
                        assert(names_of(warnings@) =~= names_of(before).push(
                            "Staged payload exceeds maximum allowed size."@,
                        ));
                        assert(names_of(warnings@) =~= head + t1.warnings);
                    } else {
                        artifacts.push(copy_artifact(a));
                        assert(t1.kept == t0.kept.push(i as int));
                        assert forall|k: int| 0 <= k < t1.kept.len() implies holds_staged(
                            staged@,
                            t1.kept[k],
                            #[trigger] artifacts@[k],
                        ) by {
                            if k < t0.kept.len() {
                                assert(artifacts@[k] == before_artifacts[k]);
                            }
                        }
                    }
                },
                Err(e) => {
                    let note = String::from_str("Artifact ").concat(manifest.artifacts[i].name.as_str()).concat(
                        " skipped: ",
                    ).concat(e.as_str());
                    warnings.push(note);
                    assert(names_of(warnings@) =~= names_of(before).push(note@));
                    assert(names_of(warnings@) =~= head + t1.warnings);
                },
            }
        }
        assert forall|k: int| 0 <= k < t1.kept.len() implies holds_staged(
            staged@,
            t1.kept[k],
            #[trigger] artifacts@[k],
        ) by {
            if k < t0.kept.len() {
                assert(artifacts@[k] == before_artifacts[k]);
            }
        }
        i = i + 1;
    }
    UpdatePlan {
        manifest_version: manifest.version,
        manifest_checksum,
        channel: manifest.channel,
        staged_at_unix_ms,
        stage_dir: config.stage_dir.clone(),
        total_bytes,
        artifacts,
        rollback: RollbackPlan {
            previous_version: manifest.previous_version,
            rollback_available: true,
            reason: String::from_str("Rollback metadata prepared"),
        },
        warnings,
    }
}

} // verus!
