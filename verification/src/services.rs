//! What the agent says to the control plane, and what it hears from it.

pub mod host_info;
pub mod pb;
pub mod rpc;
