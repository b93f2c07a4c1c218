//! Supervision core for a set of long-running helper processes: a registry of
//! per-role process handles, idempotent start/stop planning, tunnel URL
//! discovery from diagnostic output, and a deployment pipeline that extracts
//! the published endpoint and pushes secrets best-effort.

pub mod config;
pub mod discovery;
pub mod errors;
pub mod permissions;
pub mod pipeline;
pub mod project;
pub mod registry;
pub mod role;
pub mod text;
pub mod token;

pub use errors::SupError;
pub use registry::{Slot, Supervisor};
pub use role::Role;
