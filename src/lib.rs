//! Connectivity-resilient periodic telemetry for a pulse-counting sensor.
//!
//! The library holds the decisions of the system as verified state machines:
//! the wrapping pulse counter, the link and session supervisors that publish
//! health flags, and the sampler that gates, computes and frames each record.
//! The surrounding program performs the I/O and feeds the results back in.

pub mod laws;
pub mod link;
pub mod payload;
pub mod pulse;
pub mod sampler;
pub mod session;
