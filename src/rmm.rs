//! Admission of queued remote-management execution requests.

use vstd::prelude::*;

use crate::policy::{names_of, PolicyBundle};
use crate::security::{byte_len, is_bounded, validate_bounded_string, ValidationLimits, MAX_COMMAND_ID_LEN, MAX_PAYLOAD_LEN};

verus! {

/// An execution request admitted into the remote-management queue.
#[derive(Debug, Clone)]
pub struct ExecutionRequest {
    pub command_id: String,
    pub signed_payload: String,
    pub action: String,
    pub arguments: Vec<String>,
    pub requested_at_unix_ms: u64,
    pub expires_at_unix_ms: u64,
    pub source: String,
}

/// Bounds on queued execution requests.
#[derive(Debug, Clone)]
pub struct RmmConfig {
    pub max_payload_len: usize,
    pub max_command_id_len: usize,
    pub max_request_lifetime_ms: u64,
}

/// Default lifetime of a request that names no expiry: five minutes.
pub const DEFAULT_REQUEST_LIFETIME_MS: u64 = 300_000;

/// A request as handed over by the policy queue, before admission.
#[derive(Debug, Clone)]
pub struct RmmPendingCommand {
    pub command_id: String,
    pub signed_payload: String,
    pub action: String,
    pub arguments: Vec<String>,
    pub expires_at_unix_ms: Option<u64>,
    pub source: String,
}

impl RmmConfig {
    /// The bounds used when none are configured.
    pub fn default_config() -> (r: Self)
        ensures
            r.max_payload_len == MAX_PAYLOAD_LEN,
            r.max_command_id_len == MAX_COMMAND_ID_LEN,
            r.max_request_lifetime_ms == DEFAULT_REQUEST_LIFETIME_MS,
    {
        let limits = ValidationLimits::default_limits();
        RmmConfig {
            max_payload_len: limits.max_payload_len,
            max_command_id_len: limits.max_command_id_len,
            max_request_lifetime_ms: DEFAULT_REQUEST_LIFETIME_MS,
        }
    }
}

/// `a + b`, or `u64::MAX` where the sum does not fit.
pub open spec fn saturating_sum(a: u64, b: u64) -> u64 {
    if a + b > u64::MAX {
        u64::MAX
    } else {
        (a + b) as u64
    }
}

impl RmmPendingCommand {
    /// When the request lapses: its own expiry, or `now` plus the configured
    /// lifetime.
    pub open spec fn expiry(&self, config: &RmmConfig, now: u64) -> u64 {
        match self.expires_at_unix_ms {
            Some(at) => at,
            None => saturating_sum(now, config.max_request_lifetime_ms),
        }
    }

    /// The request may be queued under `policy` at `now`.
    pub open spec fn admissible(&self, policy: &PolicyBundle, config: &RmmConfig, now: u64) -> bool {
        let arguments = names_of(self.arguments@);
        &&& is_bounded(self.command_id@, config.max_command_id_len as nat)
        &&& byte_len(self.signed_payload@) <= config.max_payload_len
        &&& policy.actions().contains(self.action@)
        &&& arguments.len() <= policy.execution.max_arguments
        &&& forall|i: int|
            0 <= i < arguments.len() ==> is_bounded(
                #[trigger] arguments[i],
                policy.execution.max_argument_length as nat,
            )
        &&& self.expiry(config, now) > now
    }
}

/// Admits a pending request into the execution queue at `now_unix_ms`: the
/// identifier and payload must respect the configured bounds, the action and
/// arguments the policy, and the request must not have lapsed.
pub fn queue_execution_request(
    policy: &PolicyBundle,
    pending: RmmPendingCommand,
    config: &RmmConfig,
    now_unix_ms: u64,
) -> (r: Option<ExecutionRequest>)
    ensures
        r is Some == pending.admissible(policy, config, now_unix_ms),
        r matches Some(request) ==> {
            &&& request.command_id == pending.command_id
            &&& request.signed_payload == pending.signed_payload
            &&& request.action == pending.action
            &&& request.arguments == pending.arguments
            &&& request.requested_at_unix_ms == now_unix_ms
            &&& request.expires_at_unix_ms == pending.expiry(config, now_unix_ms)
            &&& request.source == pending.source
        },
{
    if !validate_bounded_string(pending.command_id.as_str(), config.max_command_id_len) {
        return None;
    }
    if pending.signed_payload.as_str().as_bytes().len() > config.max_payload_len {
        return None;
    }
    if !policy.allows_action(pending.action.as_str()) {
        return None;
    }
    if pending.arguments.len() > policy.execution.max_arguments {
        return None;
    }
    let ghost arguments = names_of(pending.arguments@);
    let mut i: usize = 0;
    while i < pending.arguments.len()
        invariant
            i <= pending.arguments@.len(),
            arguments == names_of(pending.arguments@),
            forall|j: int|
                0 <= j < i ==> is_bounded(#[trigger] arguments[j], policy.execution.max_argument_length as nat),
        decreases pending.arguments.len() - i,
    {
        let argument = pending.arguments[i].as_str();
        assert(arguments[i as int] == argument@);
        if !validate_bounded_string(argument, policy.execution.max_argument_length) {
            return None;
        }
        i = i + 1;
    }
    let expires_at_unix_ms = match pending.expires_at_unix_ms {
        Some(at) => at,
        None => now_unix_ms.saturating_add(config.max_request_lifetime_ms),
    };
    if expires_at_unix_ms <= now_unix_ms {
        return None;
    }
    Some(ExecutionRequest {
        command_id: pending.command_id,
        signed_payload: pending.signed_payload,
        action: pending.action,
        arguments: pending.arguments,
        requested_at_unix_ms: now_unix_ms,
        expires_at_unix_ms,
        source: pending.source,
    })
}

} // verus!
