//! Admission of execution commands against the policy.

use vstd::prelude::*;

use crate::policy::{names_of, PolicyBundle};
use crate::security::{is_bounded, validate_bounded_string, ValidationLimits, MAX_COMMAND_ID_LEN, MAX_PAYLOAD_LEN};

verus! {

/// An execution request as it arrives from a helper service.
#[derive(Debug, Clone)]
pub struct SignedCommand {
    pub command_id: String,
    pub signed_payload: String,
    pub action: String,
    pub arguments: Vec<String>,
    pub not_before_unix_time_ms: u64,
    pub not_after_unix_time_ms: u64,
}

/// The admission rule for a command, stated over its parts.
pub open spec fn command_admitted_parts(
    command_id: Seq<char>,
    signed_payload: Seq<char>,
    action: Seq<char>,
    arguments: Seq<Seq<char>>,
    not_before: u64,
    not_after: u64,
    policy: &PolicyBundle,
    now: u64,
) -> bool {
    &&& is_bounded(command_id, MAX_COMMAND_ID_LEN as nat)
    &&& is_bounded(signed_payload, MAX_PAYLOAD_LEN as nat)
    &&& is_bounded(action, MAX_COMMAND_ID_LEN as nat)
    &&& policy.actions().contains(action)
    &&& arguments.len() <= policy.execution.max_arguments
    &&& forall|i: int|
        0 <= i < arguments.len() ==> is_bounded(
            #[trigger] arguments[i],
            policy.execution.max_argument_length as nat,
        )
    &&& not_before <= not_after
    &&& not_before <= now <= not_after
}

impl SignedCommand {
    pub open spec fn argument_texts(&self) -> Seq<Seq<char>> {
        names_of(self.arguments@)
    }

    /// The command is admitted under `policy` at `now`.
    pub open spec fn admitted(&self, policy: &PolicyBundle, now: u64) -> bool {
        command_admitted_parts(
            self.command_id@,
            self.signed_payload@,
            self.action@,
            self.argument_texts(),
            self.not_before_unix_time_ms,
            self.not_after_unix_time_ms,
            policy,
            now,
        )
    }
}

/// Admits a command when its identifiers are well formed, its action is
/// allowed by the policy, its arguments respect the policy's limits and `now`
/// lies inside its validity window.
pub fn route_command(command: SignedCommand, policy: &PolicyBundle, now_unix_time_ms: u64) -> (r: bool)
    ensures
        r == command.admitted(policy, now_unix_time_ms),
{
    let limits = ValidationLimits::default_limits();
    if !validate_bounded_string(command.command_id.as_str(), limits.max_command_id_len) {
        return false;
    }
    if !validate_bounded_string(command.signed_payload.as_str(), limits.max_payload_len) {
        return false;
    }
    if !validate_bounded_string(command.action.as_str(), limits.max_command_id_len) {
        return false;
    }
    if !policy.allows_action(command.action.as_str()) {
        return false;
    }
    if command.arguments.len() > policy.execution.max_arguments {
        return false;
    }
    let mut i: usize = 0;
    while i < command.arguments.len()
        invariant
            i <= command.arguments@.len(),
            forall|j: int|
                0 <= j < i ==> is_bounded(
                    #[trigger] command.argument_texts()[j],
                    policy.execution.max_argument_length as nat,
                ),
        decreases command.arguments.len() - i,
    {
        let argument = command.arguments[i].as_str();
        assert(command.argument_texts()[i as int] == argument@);
        if !validate_bounded_string(argument, policy.execution.max_argument_length) {
            return false;
        }
        i = i + 1;
    }
    if command.not_before_unix_time_ms > command.not_after_unix_time_ms {
        return false;
    }
    if now_unix_time_ms < command.not_before_unix_time_ms
        || now_unix_time_ms > command.not_after_unix_time_ms {
        return false;
    }
    true
}

/// Outside its window `[not_before, not_after]` a command is rejected whatever
/// its other fields hold; inside the window the decision does not depend on
/// the time.
pub proof fn lemma_command_time_window(
    command: SignedCommand,
    policy: PolicyBundle,
    now: u64,
    other: u64,
)
    ensures
        now < command.not_before_unix_time_ms || now > command.not_after_unix_time_ms
            ==> !command.admitted(&policy, now),
        command.not_before_unix_time_ms <= now <= command.not_after_unix_time_ms
            && command.not_before_unix_time_ms <= other <= command.not_after_unix_time_ms
            ==> command.admitted(&policy, now) == command.admitted(&policy, other),
{
}

} // verus!
