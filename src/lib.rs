//! Debounced health probing: the per-probe threshold state machine, the
//! per-target sequencing of startup, liveness and readiness, and the
//! aggregation of many targets' flags into two health predicates.

pub mod config;
pub mod http_types;
pub mod probe;
pub mod target;
