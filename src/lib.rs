//! Query coordination for a distributed vector-search service: shard routing,
//! admission control, usage metering, result checks and response assembly,
//! driven by a per-request state machine.

pub mod admission;
pub mod pipeline;
pub mod points;
pub mod query;
pub mod response;
pub mod shard;
pub mod usage;
