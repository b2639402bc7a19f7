//! The local endpoint: shape gate, rate gate, then dispatch.

use vstd::prelude::*;

use std::sync::Arc;

use crate::clock::unix_time_ms;
use crate::envelope::Envelope;
use crate::ipc_router::{envelope_admitted, envelope_admitted_at_any_time, route_proto_envelope};
use crate::ipc_validation::{
    envelope_well_shaped, validate_payload_size, validate_proto_envelope, validate_schema_version, EnvelopeMeta,
};
use crate::policy::PolicyBundle;
use crate::rate_limit::{allow_step, LimiterState, RateLimiter};

verus! {

/// The envelope schema version this agent speaks.
pub const IPC_SCHEMA_VERSION: u32 = 1;

/// An envelope handled with the limiter's clock at `now_ms` and the wall
/// clock at `now`: the limiter took one attempt, and the answer is its
/// admission together with the dispatch decision.
pub open spec fn handled_at(
    before: LimiterState,
    after: LimiterState,
    policy: &PolicyBundle,
    envelope: &Envelope,
    now_ms: u64,
    now: u64,
    r: bool,
) -> bool {
    &&& allow_step(before, now_ms).0 == after
    &&& r == (allow_step(before, now_ms).1 && envelope_admitted(envelope, policy, now))
}

/// The local endpoint that helper services talk to. It owns the rate
/// limiter; the policy is shared read-only.
#[derive(Debug)]
pub struct IpcServer {
    pub pipe_name: String,
    pub max_payload_bytes: usize,
    pub rate_limiter: RateLimiter,
    pub policy: Arc<PolicyBundle>,
}

impl IpcServer {
    pub fn new(
        pipe_name: String,
        max_payload_bytes: usize,
        rate_limiter: RateLimiter,
        policy: PolicyBundle,
    ) -> (r: Self)
        ensures
            r.pipe_name == pipe_name,
            r.max_payload_bytes == max_payload_bytes,
            r.rate_limiter == rate_limiter,
            *r.policy == policy,
    {
        IpcServer { pipe_name, max_payload_bytes, rate_limiter, policy: Arc::new(policy) }
    }

    /// The shape gate, then the rate gate at `now_ms` on the limiter's clock.
    /// An envelope of the wrong shape uses no admission.
    pub fn validate_envelope_at(&mut self, envelope: &EnvelopeMeta, now_ms: u64) -> (r: bool)
        ensures
            final(self).pipe_name == old(self).pipe_name,
            final(self).max_payload_bytes == old(self).max_payload_bytes,
            final(self).policy == old(self).policy,
            envelope.schema_version != IPC_SCHEMA_VERSION || envelope.payload_bytes > old(
                self,
            ).max_payload_bytes ==> !r && final(self).rate_limiter == old(self).rate_limiter,
            envelope.schema_version == IPC_SCHEMA_VERSION && envelope.payload_bytes <= old(
                self,
            ).max_payload_bytes ==> (final(self).rate_limiter@, r) == allow_step(
                old(self).rate_limiter@,
                now_ms,
            ),
    {
        if !validate_schema_version(envelope.schema_version, IPC_SCHEMA_VERSION) {
            return false;
        }
        if !validate_payload_size(envelope.payload_bytes, self.max_payload_bytes) {
            return false;
        }
        self.rate_limiter.allow_at(now_ms)
    }

    /// `validate_envelope_at` at the time the limiter's clock gives.
    pub fn validate_envelope(&mut self, envelope: &EnvelopeMeta) -> (r: bool)
        ensures
            final(self).pipe_name == old(self).pipe_name,
            final(self).max_payload_bytes == old(self).max_payload_bytes,
            final(self).policy == old(self).policy,
            envelope.schema_version != IPC_SCHEMA_VERSION || envelope.payload_bytes > old(
                self,
            ).max_payload_bytes ==> !r && final(self).rate_limiter == old(self).rate_limiter,
            envelope.schema_version == IPC_SCHEMA_VERSION && envelope.payload_bytes <= old(
                self,
            ).max_payload_bytes ==> exists|now: u64|
                (final(self).rate_limiter@, r) == #[trigger] allow_step(old(self).rate_limiter@, now),
            envelope.schema_version == IPC_SCHEMA_VERSION && envelope.payload_bytes <= old(
                self,
            ).max_payload_bytes && old(self).rate_limiter@.tokens > 0 && old(self).rate_limiter@.capacity > 0
                ==> r,
    {
        let now = self.rate_limiter.clock_now();
        self.validate_envelope_at(envelope, now)
    }

    /// Binding the transport is the host process's work; the server holds no
    /// connection state of its own.
    pub fn start(&self) {
    }

    pub fn validate_proto(&self, envelope: &Envelope) -> (r: bool)
        ensures
            r == envelope_well_shaped(envelope, IPC_SCHEMA_VERSION, self.max_payload_bytes),
    {
        validate_proto_envelope(envelope, IPC_SCHEMA_VERSION, self.max_payload_bytes)
    }

    /// Shape gate, then rate gate at `now_ms` on the limiter's clock, then
    /// dispatch under the policy at `now_unix_time_ms`. Shape and rate
    /// rejections never consult the policy.
    pub fn handle_proto_at(&mut self, envelope: &Envelope, now_ms: u64, now_unix_time_ms: u64) -> (r: bool)
        ensures
            final(self).pipe_name == old(self).pipe_name,
            final(self).max_payload_bytes == old(self).max_payload_bytes,
            final(self).policy == old(self).policy,
            !envelope_well_shaped(envelope, IPC_SCHEMA_VERSION, old(self).max_payload_bytes) ==> !r
                && final(self).rate_limiter == old(self).rate_limiter,
            envelope_well_shaped(envelope, IPC_SCHEMA_VERSION, old(self).max_payload_bytes) ==> {
                let (next, admitted) = allow_step(old(self).rate_limiter@, now_ms);
                &&& final(self).rate_limiter@ == next
                &&& r == (admitted && envelope_admitted(envelope, &*old(self).policy, now_unix_time_ms))
            },
    {
        if !self.validate_proto(envelope) {
            return false;
        }
        if !self.rate_limiter.allow_at(now_ms) {
            return false;
        }
        route_proto_envelope(envelope, &self.policy, now_unix_time_ms)
    }

    /// `handle_proto_at` at the times the two clocks give. A well-shaped
    /// telemetry envelope that the policy admits is admitted whatever the
    /// clocks read while the limiter has an admission left.
    pub fn handle_proto(&mut self, envelope: &Envelope) -> (r: bool)
        ensures
            final(self).pipe_name == old(self).pipe_name,
            final(self).max_payload_bytes == old(self).max_payload_bytes,
            final(self).policy == old(self).policy,
            !envelope_well_shaped(envelope, IPC_SCHEMA_VERSION, old(self).max_payload_bytes) ==> !r
                && final(self).rate_limiter == old(self).rate_limiter,
            envelope_well_shaped(envelope, IPC_SCHEMA_VERSION, old(self).max_payload_bytes) ==> exists|
                now_ms: u64,
                now: u64,
            |
                #[trigger] handled_at(
                    old(self).rate_limiter@,
                    final(self).rate_limiter@,
                    &*old(self).policy,
                    envelope,
                    now_ms,
                    now,
                    r,
                ),
            envelope_well_shaped(envelope, IPC_SCHEMA_VERSION, old(self).max_payload_bytes)
                && envelope_admitted_at_any_time(envelope, &*old(self).policy) && old(self).rate_limiter@.tokens
                > 0 && old(self).rate_limiter@.capacity > 0 ==> r,
    {
        let ghost before = self.rate_limiter@;
        let ghost policy = self.policy;
        let now_ms = self.rate_limiter.clock_now();
        let now_unix_time_ms = unix_time_ms();
        let r = self.handle_proto_at(envelope, now_ms, now_unix_time_ms);
        proof {
            if envelope_well_shaped(envelope, IPC_SCHEMA_VERSION, self.max_payload_bytes) {
                assert(self.policy == policy);
                assert(handled_at(before, self.rate_limiter@, &*policy, envelope, now_ms, now_unix_time_ms, r));
            }
        }
        r
    }
}

} // verus!
