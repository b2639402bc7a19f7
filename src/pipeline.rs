//! Readiness of the agent's pipelines.

use vstd::prelude::*;

verus! {

/// Which of the agent's pipelines have finished starting.
#[derive(Debug, Clone, Copy, PartialEq, Eq, Structural)]
pub struct PipelineStatus {
    pub edr_ready: bool,
    pub siem_ready: bool,
    pub rmm_ready: bool,
    pub vulnerability_ready: bool,
}

impl PipelineStatus {
    pub fn new() -> (r: Self)
        ensures
            !r.edr_ready && !r.siem_ready && !r.rmm_ready && !r.vulnerability_ready,
    {
        PipelineStatus { edr_ready: false, siem_ready: false, rmm_ready: false, vulnerability_ready: false }
    }

    pub fn mark_edr_ready(&mut self)
        ensures
            *final(self) == (PipelineStatus { edr_ready: true, ..*old(self) }),
    {
        self.edr_ready = true;
    }

    pub fn mark_siem_ready(&mut self)
        ensures
            *final(self) == (PipelineStatus { siem_ready: true, ..*old(self) }),
    {
        self.siem_ready = true;
    }

    pub fn mark_rmm_ready(&mut self)
        ensures
            *final(self) == (PipelineStatus { rmm_ready: true, ..*old(self) }),
    {
        self.rmm_ready = true;
    }

    pub fn mark_vulnerability_ready(&mut self)
        ensures
            *final(self) == (PipelineStatus { vulnerability_ready: true, ..*old(self) }),
    {
        self.vulnerability_ready = true;
    }

    pub fn is_fully_ready(&self) -> (r: bool)
        ensures
            r == (self.edr_ready && self.siem_ready && self.rmm_ready && self.vulnerability_ready),
    {
        self.edr_ready && self.siem_ready && self.rmm_ready && self.vulnerability_ready
    }
}

} // verus!
