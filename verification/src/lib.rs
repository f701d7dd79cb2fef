//! Verified core of the Python bindings for the actor runtime.
pub mod errors;
pub mod text;
pub mod types;
pub mod conversions;
pub mod runtime;
pub mod workload;
pub mod observability;
