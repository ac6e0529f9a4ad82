//! Request instrumentation for an HTTP service: route labels of bounded cardinality,
//! request metrics kept in Prometheus collectors, and the per-request lifecycle that
//! ties the two together.

pub mod collectors;
pub mod descriptors;
pub mod endpoint;
pub mod handlers;
pub mod identifier;
pub mod in_flight;
pub mod metrics;
pub mod middleware;
pub mod series;
pub mod text;
