//! The host's side of the sandbox boundary: telemetry put, field by field,
//! into the records that a guest may see, and every failure turned into text.

pub mod interrupt;
