//! Stages of a data pipeline, each driven by a worker on a thread of its own
//! and watched through a tether.
pub mod error;
pub mod metrics;
pub mod retries;
pub mod runtime;
