//! Core logic of an on-host performance-monitoring agent: telemetry parsing and
//! caching, the guest's view of telemetry across the sandbox boundary, and the task
//! lifecycle, each stated with a contract and proved.

pub mod bridge;
pub mod cache;
pub mod error;
pub mod interrupt;
pub mod memory;
pub mod runtime;
pub mod scheduler;
pub mod services;
pub mod text;
