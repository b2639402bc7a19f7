//! Admission of telemetry submissions against the policy and size bounds.

use vstd::prelude::*;

use crate::clock::unix_time_ms;
use crate::identity::AgentIdentity;
use crate::policy::PolicyBundle;
use crate::security::{is_bounded, validate_bounded_string, ValidationLimits, MAX_PAYLOAD_LEN, MAX_STREAM_LEN};
use crate::text::{is_blank, is_blank_str, str_equal};

verus! {

/// A telemetry submission awaiting admission.
#[derive(Debug, Clone)]
pub struct TelemetryPayload {
    pub stream: String,
    pub payload_bytes: usize,
    pub event_count: usize,
    pub checksum_sha256: Option<String>,
}

/// The outcome of telemetry admission.
#[derive(Debug, Clone)]
pub struct TelemetryRouteDecision {
    pub accepted: bool,
    pub reason: String,
    pub routed_at_unix_ms: u64,
    pub stream: String,
    pub payload_bytes: usize,
}

/// Bounds applied to every telemetry submission.
#[derive(Debug, Clone)]
pub struct TelemetryRouteConfig {
    pub max_payload_bytes: usize,
    pub min_payload_bytes: usize,
    pub max_event_count: usize,
    pub require_checksum: bool,
}

/// Default cap on the events of one submission.
pub const DEFAULT_MAX_EVENT_COUNT: usize = 2048;

/// Which admission rule decided a submission.
#[derive(Debug, Clone, Copy, PartialEq, Eq, Structural)]
pub enum TelemetryVerdict {
    Accepted,
    StreamInvalid,
    StreamNotPermitted,
    PayloadTooSmall,
    PayloadTooLarge,
    EventCountOutOfRange,
    ChecksumMissing,
}

impl TelemetryVerdict {
    /// The stable reason text reported for each verdict.
    pub open spec fn reason(&self) -> Seq<char> {
        match self {
            TelemetryVerdict::Accepted => "Telemetry accepted"@,
            TelemetryVerdict::StreamInvalid => "Telemetry stream name invalid"@,
            TelemetryVerdict::StreamNotPermitted => "Telemetry stream not permitted by policy"@,
            TelemetryVerdict::PayloadTooSmall => "Telemetry payload too small"@,
            TelemetryVerdict::PayloadTooLarge => "Telemetry payload exceeds configured limit"@,
            TelemetryVerdict::EventCountOutOfRange => "Telemetry event count outside permitted range"@,
            TelemetryVerdict::ChecksumMissing => "Telemetry checksum required but missing"@,
        }
    }

    pub fn reason_text(&self) -> (r: String)
        ensures
            r@ == self.reason(),
    {
        match self {
            TelemetryVerdict::Accepted => String::from_str("Telemetry accepted"),
            TelemetryVerdict::StreamInvalid => String::from_str("Telemetry stream name invalid"),
            TelemetryVerdict::StreamNotPermitted => String::from_str(
                "Telemetry stream not permitted by policy",
            ),
            TelemetryVerdict::PayloadTooSmall => String::from_str("Telemetry payload too small"),
            TelemetryVerdict::PayloadTooLarge => String::from_str(
                "Telemetry payload exceeds configured limit",
            ),
            TelemetryVerdict::EventCountOutOfRange => String::from_str(
                "Telemetry event count outside permitted range",
            ),
            TelemetryVerdict::ChecksumMissing => String::from_str(
                "Telemetry checksum required but missing",
            ),
        }
    }
}

/// The admission rules for telemetry, in the order they are applied.
pub open spec fn telemetry_verdict_parts(
    stream: Seq<char>,
    payload_bytes: usize,
    event_count: usize,
    checksum: Option<Seq<char>>,
    policy: &PolicyBundle,
    config: &TelemetryRouteConfig,
) -> TelemetryVerdict {
    if !is_bounded(stream, MAX_STREAM_LEN as nat) {
        TelemetryVerdict::StreamInvalid
    } else if !policy.streams().contains(stream) {
        TelemetryVerdict::StreamNotPermitted
    } else if payload_bytes < config.min_payload_bytes {
        TelemetryVerdict::PayloadTooSmall
    } else if payload_bytes > config.max_payload_bytes {
        TelemetryVerdict::PayloadTooLarge
    } else if event_count == 0 || event_count > config.max_event_count {
        TelemetryVerdict::EventCountOutOfRange
    } else if config.require_checksum && match checksum {
        Some(c) => is_blank(c),
        None => true,
    } {
        TelemetryVerdict::ChecksumMissing
    } else {
        TelemetryVerdict::Accepted
    }
}

impl TelemetryPayload {
    pub open spec fn checksum_text(&self) -> Option<Seq<char>> {
        match self.checksum_sha256 {
            Some(c) => Some(c@),
            None => None,
        }
    }

    /// The verdict of admission for this submission.
    pub open spec fn verdict(&self, policy: &PolicyBundle, config: &TelemetryRouteConfig) -> TelemetryVerdict {
        telemetry_verdict_parts(
            self.stream@,
            self.payload_bytes,
            self.event_count,
            self.checksum_text(),
            policy,
            config,
        )
    }
}

impl TelemetryRouteDecision {
    /// The decision reports `verdict` for `payload`.
    pub open spec fn reports(&self, payload: &TelemetryPayload, verdict: TelemetryVerdict) -> bool {
        &&& self.accepted == (verdict == TelemetryVerdict::Accepted)
        &&& self.reason@ == verdict.reason()
        &&& self.stream == payload.stream
        &&& self.payload_bytes == payload.payload_bytes
    }
}

impl TelemetryRouteConfig {
    pub open spec fn is_default(&self) -> bool {
        &&& self.max_payload_bytes == MAX_PAYLOAD_LEN
        &&& self.min_payload_bytes == 1
        &&& self.max_event_count == DEFAULT_MAX_EVENT_COUNT
        &&& !self.require_checksum
    }

    /// The bounds used when nothing else is configured: payloads of 1 to
    /// `MAX_PAYLOAD_LEN` bytes, up to `DEFAULT_MAX_EVENT_COUNT` events, no
    /// checksum required.
    pub fn default_config() -> (r: Self)
        ensures
            r.is_default(),
    {
        let limits = ValidationLimits::default_limits();
        TelemetryRouteConfig {
            max_payload_bytes: limits.max_payload_len,
            min_payload_bytes: 1,
            max_event_count: DEFAULT_MAX_EVENT_COUNT,
            require_checksum: false,
        }
    }
}

fn stream_permitted(policy: &PolicyBundle, stream: &str) -> (r: bool)
    ensures
        r == policy.streams().contains(stream@),
{
    let streams = &policy.telemetry_streams;
    let mut i: usize = 0;
    while i < streams.len()
        invariant
            i <= streams@.len(),
            streams == &policy.telemetry_streams,
            forall|j: int| 0 <= j < i ==> policy.streams()[j] != stream@,
        decreases streams.len() - i,
    {
        if str_equal(streams[i].as_str(), stream) {
            assert(policy.streams()[i as int] == stream@);
            return true;
        }
        i = i + 1;
    }
    false
}

/// Applies the telemetry admission rules and names the one that decided.
pub fn evaluate_telemetry(
    payload: &TelemetryPayload,
    policy: &PolicyBundle,
    config: &TelemetryRouteConfig,
) -> (r: TelemetryVerdict)
    ensures
        r == payload.verdict(policy, config),
{
    if !validate_bounded_string(payload.stream.as_str(), MAX_STREAM_LEN) {
        return TelemetryVerdict::StreamInvalid;
    }
    if !stream_permitted(policy, payload.stream.as_str()) {
        return TelemetryVerdict::StreamNotPermitted;
    }
    if payload.payload_bytes < config.min_payload_bytes {
        return TelemetryVerdict::PayloadTooSmall;
    }
    if payload.payload_bytes > config.max_payload_bytes {
        return TelemetryVerdict::PayloadTooLarge;
    }
    if payload.event_count == 0 || payload.event_count > config.max_event_count {
        return TelemetryVerdict::EventCountOutOfRange;
    }
    if config.require_checksum {
        let missing = match &payload.checksum_sha256 {
            Some(checksum) => is_blank_str(checksum.as_str()),
            None => true,
        };
        if missing {
            return TelemetryVerdict::ChecksumMissing;
        }
    }
    TelemetryVerdict::Accepted
}

/// Admits or rejects a submission under the default bounds.
pub fn route_telemetry(payload: TelemetryPayload, policy: &PolicyBundle) -> (r: bool)
    ensures
        r == (payload.verdict(policy, &default_route_config()) == TelemetryVerdict::Accepted),
{
    let config = TelemetryRouteConfig::default_config();
    proof {
        assert(config == default_route_config());
    }
    evaluate_telemetry(&payload, policy, &config) == TelemetryVerdict::Accepted
}

/// The default bounds as a value.
pub open spec fn default_route_config() -> TelemetryRouteConfig {
    TelemetryRouteConfig {
        max_payload_bytes: MAX_PAYLOAD_LEN,
        min_payload_bytes: 1,
        max_event_count: DEFAULT_MAX_EVENT_COUNT,
        require_checksum: false,
    }
}

/// The decision for a submission evaluated at `now_unix_ms`.
pub fn route_telemetry_at(
    payload: TelemetryPayload,
    policy: &PolicyBundle,
    identity: &AgentIdentity,
    config: &TelemetryRouteConfig,
    now_unix_ms: u64,
) -> (r: TelemetryRouteDecision)
    ensures
        r.reports(&payload, payload.verdict(policy, config)),
        r.routed_at_unix_ms == now_unix_ms,
{
    let verdict = evaluate_telemetry(&payload, policy, config);
    TelemetryRouteDecision {
        accepted: verdict == TelemetryVerdict::Accepted,
        reason: verdict.reason_text(),
        routed_at_unix_ms: now_unix_ms,
        stream: payload.stream,
        payload_bytes: payload.payload_bytes,
    }
}

/// The decision for a submission, stamped with the current wall-clock time.
pub fn route_telemetry_with_context(
    payload: TelemetryPayload,
    policy: &PolicyBundle,
    identity: &AgentIdentity,
    config: &TelemetryRouteConfig,
) -> (r: TelemetryRouteDecision)
    ensures
        r.reports(&payload, payload.verdict(policy, config)),
{
    let now = unix_time_ms();
    route_telemetry_at(payload, policy, identity, config, now)
}

/// A well-formed stream name that the policy does not list is rejected with
/// the stream-not-permitted verdict, whatever the size, count and checksum,
/// and that verdict's reason text is no other verdict's.
pub proof fn lemma_unlisted_stream_rejected(
    payload: TelemetryPayload,
    policy: PolicyBundle,
    config: TelemetryRouteConfig,
)
    requires
        is_bounded(payload.stream@, MAX_STREAM_LEN as nat),
        !policy.streams().contains(payload.stream@),
    ensures
        payload.verdict(&policy, &config) == TelemetryVerdict::StreamNotPermitted,
        forall|other: TelemetryVerdict|
            other != TelemetryVerdict::StreamNotPermitted ==> #[trigger] other.reason()
                != TelemetryVerdict::StreamNotPermitted.reason(),
{
    reveal_strlit("Telemetry accepted");
    reveal_strlit("Telemetry stream name invalid");
    reveal_strlit("Telemetry stream not permitted by policy");
    reveal_strlit("Telemetry payload too small");
    reveal_strlit("Telemetry payload exceeds configured limit");
    reveal_strlit("Telemetry event count outside permitted range");
    reveal_strlit("Telemetry checksum required but missing");
    assert forall|other: TelemetryVerdict|
        other != TelemetryVerdict::StreamNotPermitted implies #[trigger] other.reason()
            != TelemetryVerdict::StreamNotPermitted.reason() by {
        let mine = TelemetryVerdict::StreamNotPermitted.reason();
        let theirs = other.reason();
        if other == TelemetryVerdict::EventCountOutOfRange {
            assert(theirs[10] != mine[10]);
        } else if other == TelemetryVerdict::StreamInvalid {
            assert(theirs[18] != mine[18]);
        } else {
            assert(theirs.len() != mine.len());
        }
    }
}

} // verus!
