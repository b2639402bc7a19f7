//! Decisions of the supervisor that watches the agent core.

use vstd::prelude::*;

verus! {

/// Settings of the supervisor that watches the agent core.
#[derive(Debug, Clone)]
pub struct WatchdogConfig {
    pub interval_secs: u64,
    pub grace_misses: u32,
    pub max_restart_attempts: u32,
    pub runbook_url: Option<String>,
}

/// What one health probe of the agent core found.
#[derive(Debug, Clone)]
pub enum HealthStatus {
    Healthy,
    Degraded { reason: String },
    Unreachable { reason: String },
}

/// What the supervisor should do after a probe.
#[derive(Debug, Clone, Copy, PartialEq, Eq, Structural)]
pub enum WatchdogAction {
    /// Nothing: healthy, or still within the grace allowance.
    Wait,
    /// Ask for a restart of the agent core.
    Restart,
    /// The restart budget is spent; an operator must step in.
    Escalate,
}

/// The supervisor's memory between probes.
#[derive(Debug, Clone)]
pub struct HealthProbe {
    pub consecutive_failures: u32,
    pub restart_attempts: u32,
    pub last_status: Option<HealthStatus>,
}

/// `n + 1`, held at `u32::MAX`.
pub open spec fn saturating_inc(n: u32) -> u32 {
    if n == u32::MAX {
        n
    } else {
        (n + 1) as u32
    }
}

/// After a failed probe: wait within the grace allowance, restart while
/// attempts are left, escalate once they are spent.
pub open spec fn restart_decision(failures: u32, attempts: u32, config: &WatchdogConfig) -> WatchdogAction {
    if failures <= config.grace_misses {
        WatchdogAction::Wait
    } else if attempts >= config.max_restart_attempts {
        WatchdogAction::Escalate
    } else {
        WatchdogAction::Restart
    }
}

impl HealthProbe {
    pub fn new() -> (r: Self)
        ensures
            r.consecutive_failures == 0,
            r.restart_attempts == 0,
            r.last_status is None,
    {
        HealthProbe { consecutive_failures: 0, restart_attempts: 0, last_status: None }
    }
}

/// Decides on a restart after a failed probe; a restart is counted.
pub fn maybe_restart_agent_core(probe: &mut HealthProbe, config: &WatchdogConfig) -> (r: WatchdogAction)
    ensures
        r == restart_decision(old(probe).consecutive_failures, old(probe).restart_attempts, config),
        final(probe).consecutive_failures == old(probe).consecutive_failures,
        final(probe).last_status == old(probe).last_status,
        final(probe).restart_attempts == if r == WatchdogAction::Restart {
            saturating_inc(old(probe).restart_attempts)
        } else {
            old(probe).restart_attempts
        },
{
    if probe.consecutive_failures <= config.grace_misses {
        return WatchdogAction::Wait;
    }
    if probe.restart_attempts >= config.max_restart_attempts {
        return WatchdogAction::Escalate;
    }
    probe.restart_attempts = probe.restart_attempts.saturating_add(1);
    WatchdogAction::Restart
}

/// Records a probe result and decides what to do: a healthy probe clears the
/// failure count, any other counts one more failure and may call for a
/// restart.
pub fn handle_status(probe: &mut HealthProbe, config: &WatchdogConfig, status: HealthStatus) -> (r: WatchdogAction)
    ensures
        final(probe).last_status == Some(status),
        status is Healthy ==> {
            &&& r == WatchdogAction::Wait
            &&& final(probe).consecutive_failures == 0
            &&& final(probe).restart_attempts == old(probe).restart_attempts
        },
        !(status is Healthy) ==> {
            let failures = saturating_inc(old(probe).consecutive_failures);
            &&& final(probe).consecutive_failures == failures
            &&& r == restart_decision(failures, old(probe).restart_attempts, config)
            &&& final(probe).restart_attempts == if r == WatchdogAction::Restart {
                saturating_inc(old(probe).restart_attempts)
            } else {
                old(probe).restart_attempts
            }
        },
{
    let healthy = match &status {
        HealthStatus::Healthy => true,
        _ => false,
    };
    probe.last_status = Some(status);
    if healthy {
        probe.consecutive_failures = 0;
        WatchdogAction::Wait
    } else {
        probe.consecutive_failures = probe.consecutive_failures.saturating_add(1);
        maybe_restart_agent_core(probe, config)
    }
}

} // verus!
