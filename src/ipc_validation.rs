//! Shape checks on envelopes: schema version, payload presence, size.

use vstd::prelude::*;

use crate::envelope::Envelope;

verus! {

/// The envelope facts that the shape check reads.
#[derive(Debug, Clone)]
pub struct EnvelopeMeta {
    pub schema_version: u32,
    pub payload_bytes: usize,
}

pub fn validate_schema_version(schema_version: u32, expected: u32) -> (r: bool)
    ensures
        r == (schema_version == expected),
{
    schema_version == expected
}

pub fn validate_payload_size(payload_bytes: usize, max_payload_bytes: usize) -> (r: bool)
    ensures
        r == (payload_bytes <= max_payload_bytes),
{
    payload_bytes <= max_payload_bytes
}

/// The envelope has the expected schema version, carries a payload and is
/// within the size bound.
pub open spec fn envelope_well_shaped(envelope: &Envelope, expected_version: u32, max_payload_bytes: usize) -> bool {
    &&& envelope.schema_version == expected_version
    &&& envelope.payload is Some
    &&& envelope.encoded_len <= max_payload_bytes
}

pub fn validate_proto_envelope(envelope: &Envelope, expected_version: u32, max_payload_bytes: usize) -> (r: bool)
    ensures
        r == envelope_well_shaped(envelope, expected_version, max_payload_bytes),
{
    let schema_ok = validate_schema_version(envelope.schema_version, expected_version);
    let payload_ok = envelope.payload.is_some();
    let size_ok = validate_payload_size(envelope.encoded_len, max_payload_bytes);
    schema_ok && payload_ok && size_ok
}

} // verus!
