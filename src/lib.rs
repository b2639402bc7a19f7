//! Admission-control core of an endpoint security agent: signed policy
//! bundles, command and telemetry admission, envelope checks and rate limiting.

pub mod security;
pub mod text;
pub mod crypto;
pub mod policy;
pub mod clock;
pub mod rate_limit;
pub mod command_router;
pub mod identity;
pub mod telemetry_router;
pub mod envelope;
pub mod ipc_validation;
pub mod ipc_router;
pub mod ipc;
pub mod pipeline;
pub mod service_registry;
pub mod config;
pub mod rmm;
pub mod watchdog;
pub mod normalise;
pub mod edr;
pub mod digest;
pub mod siem;
pub mod compliance;
pub mod evidence;
pub mod update;
pub mod uplink;
