//! Persona exporter: a lightweight push-model exporter of machine metrics.
//!
//! The library holds the exporter's logic: the configuration model and its
//! defaults, the metric records and how each collection step fills them, the
//! ordering and trimming of the process list, the line-protocol record plan,
//! and the shape of the HTTP request that carries a report.
pub mod config;
pub mod metric_types;
pub mod platforms;
pub mod text;
pub mod paths;
pub mod metrics;
