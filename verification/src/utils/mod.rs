//! The loading traits, the types that are read from one variable, and the
//! settings of tracing and metrics.

pub mod decimal;
pub mod from_env;
pub mod level;
pub mod metrics;
pub mod otlp;
pub mod primitives;
pub mod tracing;
pub mod url;
