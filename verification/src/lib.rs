//! Request tracing for an HTTP service: trace-context propagation, span
//! creation and enrichment, per-sink field visibility, and the lifecycle of
//! the exporter and of the process-wide subscriber.

pub mod carrier;
pub mod context;
pub mod error;
mod ids;
pub mod laws;
pub mod otel;
pub mod propagator;
pub mod registry;
pub mod request;
pub mod search;
pub mod sink;
pub mod span;
pub mod text;
