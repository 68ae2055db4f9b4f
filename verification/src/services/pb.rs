//! The messages of the control plane's protocol, as plain values.

use vstd::prelude::*;

verus! {

/// A 128-bit address carried as two 64-bit halves.
#[derive(Clone, Copy, Debug, PartialEq, Eq, Structural)]
pub struct Ipv6Addr {
    pub hi_64_bits: u64,
    pub lo_64_bits: u64,
}

/// What a host says of itself when it registers. A fact that could not be
/// found out is `None`.
#[derive(Clone, Debug, PartialEq, Eq)]
pub struct SendHostInfoReq {
    pub instance_id: String,
    pub os: Option<String>,
    pub architecture: Option<String>,
    pub hostname: Option<String>,
    pub kernel_version: Option<String>,
    pub local_ipv4_addr: Option<u32>,
    pub local_ipv6_addr: Option<Ipv6Addr>,
}

/// A task as the control plane hands it out.
#[derive(Clone, Debug, PartialEq, Eq)]
pub struct Task {
    pub id: String,
    /// The component's binary.
    pub wasm: Vec<u8>,
    /// The arguments that the component is started with.
    pub wasm_args: Vec<String>,
    /// When the task expires, in milliseconds since the Unix epoch.
    pub end_time: u64,
}

} // verus!
