//! Uplink settings and endpoint helpers.

use vstd::prelude::*;

use crate::normalise::{strip_trailing, strip_trailing_slashes, trim_chars, trimmed};
use crate::security::byte_len;
use crate::text::{chars_of, is_blank, is_blank_str, string_from_chars};

verus! {

/// Where queued evidence and results are sent.
#[derive(Debug, Clone)]
pub struct UplinkConfig {
    pub intake_endpoint: String,
    pub rmm_endpoint: String,
    pub rmm_base_endpoint: String,
    pub patch_endpoint: String,
    pub api_key: Option<String>,
    pub queue_dir: String,
    pub max_items_per_cycle: usize,
}

/// Counts of one pass over the uplink queue.
#[derive(Debug, Clone)]
pub struct UplinkSummary {
    pub processed: usize,
    pub succeeded: usize,
    pub failed: usize,
    pub completed_at_unix_ms: u64,
}

#[derive(Debug, Clone)]
pub struct UplinkWorkerConfig {
    pub interval_secs: u64,
}

/// The first of `value` and `alternate` whose trimmed text is at least three
/// bytes long, else `fallback`.
pub open spec fn fallback_choice(value: Seq<char>, alternate: Seq<char>, fallback: Seq<char>) -> Seq<char> {
    if byte_len(trimmed(value)) >= 3 {
        value
    } else if byte_len(trimmed(alternate)) >= 3 {
        alternate
    } else {
        fallback
    }
}

fn trimmed_bytes(s: &str) -> (r: usize)
    ensures
        r == byte_len(trimmed(s@)),
{
    let t = trim_chars(&chars_of(s));
    let text = string_from_chars(&t);
    text.as_str().as_bytes().len()
}

pub fn normalise_fallback(value: &str, alternate: &str, fallback: &str) -> (r: String)
    ensures
        r@ == fallback_choice(value@, alternate@, fallback@),
{
    if trimmed_bytes(value) >= 3 {
        String::from_str(value)
    } else if trimmed_bytes(alternate) >= 3 {
        String::from_str(alternate)
    } else {
        String::from_str(fallback)
    }
}

/// `base` without trailing slashes, then `path` with exactly the leading
/// slash it needs.
pub open spec fn joined_endpoint(base: Seq<char>, path: Seq<char>) -> Seq<char> {
    strip_trailing(base, '/') + if path.len() > 0 && path[0] == '/' {
        path
    } else {
        seq!['/'] + path
    }
}

pub fn join_endpoint(base: &str, path: &str) -> (r: String)
    ensures
        r@ == joined_endpoint(base@, path@),
{
    let trimmed_base = strip_trailing_slashes(chars_of(base));
    let path_chars = chars_of(path);
    let mut out = trimmed_base;
    if path_chars.len() == 0 || path_chars[0] != '/' {
        out.push('/');
    }
    let ghost head = out@;
    let mut i: usize = 0;
    while i < path_chars.len()
        invariant
            i <= path_chars@.len(),
            out@ == head + path_chars@.subrange(0, i as int),
        decreases path_chars.len() - i,
    {
        out.push(path_chars[i]);
        i = i + 1;
        assert(out@ =~= head + path_chars@.subrange(0, i as int));
    }
    assert(path_chars@.subrange(0, path_chars@.len() as int) =~= path_chars@);
    assert(out@ =~= joined_endpoint(base@, path@));
    string_from_chars(&out)
}

/// The identifiers an evidence item is reported under.
#[derive(Debug, Clone)]
pub struct IntakeFields {
    pub tenant_id: String,
    pub asset_id: String,
    pub linked_object_id: String,
    pub immutable_reference: String,
}

/// The object an evidence item links to: its related object, or itself.
pub open spec fn linked_object(evidence_id: Seq<char>, related_id: Seq<char>) -> Seq<char> {
    if related_id.len() == 0 {
        evidence_id
    } else {
        related_id
    }
}

/// How an evidence item is reported: the asset falls back to the source and
/// then to `agent-local`, the tenant to `tamsil-agent`; the immutable
/// reference is the evidence id, or `ev-` and the linked object without one.
pub fn intake_fields(
    tenant_id: &str,
    asset_id: &str,
    source: &str,
    evidence_id: &str,
    related_id: &str,
) -> (r: IntakeFields)
    ensures
        r.asset_id@ == fallback_choice(asset_id@, source@, "agent-local"@),
        r.tenant_id@ == fallback_choice(tenant_id@, ""@, "tamsil-agent"@),
        r.linked_object_id@ == linked_object(evidence_id@, related_id@),
        r.immutable_reference@ == if evidence_id@.len() == 0 {
            "ev-"@ + linked_object(evidence_id@, related_id@)
        } else {
            evidence_id@
        },
{
    let linked = if related_id.is_empty() {
        String::from_str(evidence_id)
    } else {
        String::from_str(related_id)
    };
    let immutable_reference = if evidence_id.is_empty() {
        String::from_str("ev-").concat(linked.as_str())
    } else {
        String::from_str(evidence_id)
    };
    IntakeFields {
        tenant_id: normalise_fallback(tenant_id, "", "tamsil-agent"),
        asset_id: normalise_fallback(asset_id, source, "agent-local"),
        linked_object_id: linked,
        immutable_reference,
    }
}

/// The evidence type reported to remote management: `agent_evidence` when
/// none is given.
pub fn rmm_evidence_type(evidence_type: &str) -> (r: String)
    ensures
        r@ == if evidence_type@.len() == 0 {
            "agent_evidence"@
        } else {
            evidence_type@
        },
{
    if evidence_type.is_empty() {
        String::from_str("agent_evidence")
    } else {
        String::from_str(evidence_type)
    }
}

/// A tenant id is reported to remote management only when it is not blank.
pub fn reports_tenant(tenant_id: &str) -> (r: bool)
    ensures
        r == !is_blank(tenant_id@),
{
    !is_blank_str(tenant_id)
}

} // verus!
