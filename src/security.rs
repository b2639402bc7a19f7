//! Shared length bounds and the single string-admission gate.

use vstd::prelude::*;
use vstd::utf8::encode_utf8;

verus! {

/// Length bounds shared by every admission check.
#[derive(Debug)]
pub struct ValidationLimits {
    pub max_command_id_len: usize,
    pub max_payload_len: usize,
    pub max_stream_len: usize,
}

/// Longest accepted command identifier or action name, in bytes.
pub const MAX_COMMAND_ID_LEN: usize = 128;

/// Longest accepted payload or signature, in bytes.
pub const MAX_PAYLOAD_LEN: usize = 8192;

/// Longest accepted telemetry stream name, in bytes.
pub const MAX_STREAM_LEN: usize = 64;

/// Number of bytes of the UTF-8 encoding of `s`.
pub open spec fn byte_len(s: Seq<char>) -> nat {
    encode_utf8(s).len()
}

/// A string is admitted when it is non-empty and its UTF-8 encoding is at
/// most `max_len` bytes long.
pub open spec fn is_bounded(s: Seq<char>, max_len: nat) -> bool {
    s.len() > 0 && byte_len(s) <= max_len
}

impl ValidationLimits {
    pub open spec fn is_default(&self) -> bool {
        &&& self.max_command_id_len == MAX_COMMAND_ID_LEN
        &&& self.max_payload_len == MAX_PAYLOAD_LEN
        &&& self.max_stream_len == MAX_STREAM_LEN
    }

    pub fn default_limits() -> (r: Self)
        ensures
            r.is_default(),
    {
        ValidationLimits {
            max_command_id_len: MAX_COMMAND_ID_LEN,
            max_payload_len: MAX_PAYLOAD_LEN,
            max_stream_len: MAX_STREAM_LEN,
        }
    }
}

/// The single admission gate for strings: non-empty and at most `max_len`
/// bytes.
pub fn validate_bounded_string(value: &str, max_len: usize) -> (r: bool)
    ensures
        r == is_bounded(value@, max_len as nat),
{
    !value.is_empty() && value.as_bytes().len() <= max_len
}

} // verus!
