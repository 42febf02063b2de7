//! Operations on the running generation: plans, activations, rollbacks, certificates, restarts.

pub mod activate;
pub mod body;
pub mod certs;
pub mod compatibility;
pub mod generation;
pub mod laws;
pub mod plan;
pub mod probes;
pub mod restart;
pub mod rollback;
pub mod session;
