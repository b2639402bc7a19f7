//! Dispatch of an envelope to command or telemetry admission.

use vstd::prelude::*;

use crate::command_router::{command_admitted_parts, route_command, SignedCommand};
use crate::envelope::{Envelope, EnvelopePayload};
use crate::policy::{names_of, PolicyBundle};
use crate::telemetry_router::{default_route_config, route_telemetry, telemetry_verdict_parts, TelemetryPayload, TelemetryVerdict};

verus! {

/// The telemetry verdict for an envelope of `encoded_len` bytes on `stream`:
/// one event, no checksum, default bounds.
pub open spec fn envelope_telemetry_admitted(stream: Seq<char>, encoded_len: usize, policy: &PolicyBundle) -> bool {
    telemetry_verdict_parts(stream, encoded_len, 1, None, policy, &default_route_config())
        == TelemetryVerdict::Accepted
}

/// The dispatch rule: commands go to command admission, sensor events to the
/// `sensor` stream, the other payloads to the `agent` stream, and an envelope
/// without payload is rejected.
pub open spec fn envelope_admitted(envelope: &Envelope, policy: &PolicyBundle, now: u64) -> bool {
    match envelope.payload {
        None => false,
        Some(EnvelopePayload::ExecutionCommand(c)) => command_admitted_parts(
            c.command_id@,
            c.signed_blob@,
            c.action@,
            names_of(c.arguments@),
            c.not_before_unix_time_ms,
            c.not_after_unix_time_ms,
            policy,
            now,
        ),
        Some(EnvelopePayload::SensorEvent) => envelope_telemetry_admitted("sensor"@, envelope.encoded_len, policy),
        Some(_) => envelope_telemetry_admitted("agent"@, envelope.encoded_len, policy),
    }
}

/// An envelope whose admission does not depend on the time: a telemetry
/// payload that the policy's streams and the default bounds admit.
pub open spec fn envelope_admitted_at_any_time(envelope: &Envelope, policy: &PolicyBundle) -> bool {
    match envelope.payload {
        None => false,
        Some(EnvelopePayload::ExecutionCommand(_)) => false,
        Some(EnvelopePayload::SensorEvent) => envelope_telemetry_admitted("sensor"@, envelope.encoded_len, policy),
        Some(_) => envelope_telemetry_admitted("agent"@, envelope.encoded_len, policy),
    }
}

fn clone_strings(items: &Vec<String>) -> (r: Vec<String>)
    ensures
        r@ == items@,
{
    let mut out: Vec<String> = Vec::new();
    let mut i: usize = 0;
    while i < items.len()
        invariant
            i <= items@.len(),
            out@ == items@.subrange(0, i as int),
        decreases items.len() - i,
    {
        out.push(items[i].clone());
        i = i + 1;
        assert(out@ =~= items@.subrange(0, i as int));
    }
    assert(items@.subrange(0, items@.len() as int) =~= items@);
    out
}

/// Sends an envelope to the admission pipeline its payload calls for.
pub fn route_proto_envelope(envelope: &Envelope, policy: &PolicyBundle, now_unix_time_ms: u64) -> (r: bool)
    ensures
        r == envelope_admitted(envelope, policy, now_unix_time_ms),
{
    match &envelope.payload {
        Some(EnvelopePayload::ExecutionCommand(command)) => {
            let signed = SignedCommand {
                command_id: command.command_id.clone(),
                signed_payload: command.signed_blob.clone(),
                action: command.action.clone(),
                arguments: clone_strings(&command.arguments),
                not_before_unix_time_ms: command.not_before_unix_time_ms,
                not_after_unix_time_ms: command.not_after_unix_time_ms,
            };
            route_command(signed, policy, now_unix_time_ms)
        },
        Some(EnvelopePayload::SensorEvent) => {
            route_telemetry(
                TelemetryPayload {
                    stream: String::from_str("sensor"),
                    payload_bytes: envelope.encoded_len,
                    event_count: 1,
                    checksum_sha256: None,
                },
                policy,
            )
        },
        Some(_) => {
            route_telemetry(
                TelemetryPayload {
                    stream: String::from_str("agent"),
                    payload_bytes: envelope.encoded_len,
                    event_count: 1,
                    checksum_sha256: None,
                },
                policy,
            )
        },
        None => false,
    }
}

} // verus!
