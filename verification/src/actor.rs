//! The four actors of the pipeline, each with its state and its steps.

pub mod generator;
pub mod heartbeat;
pub mod logger;
pub mod worker;
pub mod worker_zero_copy;
