//! The decoded wire envelope as the core sees it.

use vstd::prelude::*;

verus! {

/// An execution request as carried on the wire.
#[derive(Debug, Clone)]
pub struct ExecutionCommand {
    pub command_id: String,
    pub signed_blob: String,
    pub action: String,
    pub arguments: Vec<String>,
    pub not_before_unix_time_ms: u64,
    pub not_after_unix_time_ms: u64,
}

/// The payload kinds an envelope can carry. Only execution commands are
/// read by the core; the others are routed as telemetry by kind alone.
#[derive(Debug, Clone)]
pub enum EnvelopePayload {
    ExecutionCommand(ExecutionCommand),
    SensorEvent,
    ExecutionResult,
    EvidencePackage,
    ComplianceAssertion,
    HealthHeartbeat,
}

/// A decoded envelope. `encoded_len` is its size in the wire encoding, as
/// the codec that decoded it reports.
#[derive(Debug, Clone)]
pub struct Envelope {
    pub schema_version: u32,
    pub asset_id: String,
    pub agent_id: String,
    pub unix_time_ms: u64,
    pub payload: Option<EnvelopePayload>,
    pub encoded_len: usize,
}

} // verus!
