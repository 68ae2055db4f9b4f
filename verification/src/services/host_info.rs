//! The facts that a host registers with, and the fixed-width encodings of
//! its addresses.

use crate::services::pb::{Ipv6Addr, SendHostInfoReq};
use crate::text::{chars_of, same_text};
use vstd::prelude::*;

verus! {

// ---------------------------------------------------------------------------
// Halves of a 128-bit address
// ---------------------------------------------------------------------------

/// The upper 64 bits of `ip`.
pub open spec fn high_half(ip: u128) -> u64 {
    (ip >> 64) as u64
}

/// The lower 64 bits of `ip`.
pub open spec fn low_half(ip: u128) -> u64 {
    (ip & 0xffff_ffff_ffff_ffff) as u64
}

/// The 128-bit value whose upper half is `hi` and whose lower half is `lo`.
pub open spec fn join_halves(hi: u64, lo: u64) -> u128 {
    ((hi as u128) << 64) | (lo as u128)
}

/// Splitting a 128-bit value into halves and joining them again gives the
/// value back, bit for bit.
pub proof fn lemma_split_join(ip: u128)
    ensures
        join_halves(high_half(ip), low_half(ip)) == ip,
{
    assert((((ip >> 64) as u64) as u128) << 64 | (((ip & 0xffff_ffff_ffff_ffff) as u64) as u128)
        == ip) by (bit_vector);
}

/// Joining two halves and splitting the result gives the halves back.
pub proof fn lemma_join_split(hi: u64, lo: u64)
    ensures
        high_half(join_halves(hi, lo)) == hi,
        low_half(join_halves(hi, lo)) == lo,
{
    assert(((((hi as u128) << 64) | (lo as u128)) >> 64) as u64 == hi) by (bit_vector);
    assert(((((hi as u128) << 64) | (lo as u128)) & 0xffff_ffff_ffff_ffff) as u64 == lo)
        by (bit_vector);
}

impl Ipv6Addr {
    /// The two halves of `ip`.
    pub open spec fn spec_from_u128(ip: u128) -> Ipv6Addr {
        Ipv6Addr { hi_64_bits: high_half(ip), lo_64_bits: low_half(ip) }
    }

    /// The 128-bit value that the two halves stand for.
    pub open spec fn spec_to_u128(self) -> u128 {
        join_halves(self.hi_64_bits, self.lo_64_bits)
    }

    /// Splits a 128-bit value into its upper and lower 64 bits.
    pub fn from_u128(ip: u128) -> (r: Ipv6Addr)
        ensures
            r == Ipv6Addr::spec_from_u128(ip),
            r.spec_to_u128() == ip,
    {
        proof {
            lemma_split_join(ip);
        }
        Ipv6Addr {
            hi_64_bits: (ip >> 64) as u64,
            lo_64_bits: (ip & 0xffff_ffff_ffff_ffff) as u64,
        }
    }

    /// Reassembles the 128-bit value from the two halves.
    #[verifier::when_used_as_spec(spec_to_u128)]
    pub fn to_u128(self) -> (r: u128)
        ensures
            r == self.spec_to_u128(),
            Ipv6Addr::spec_from_u128(r) == self,
    {
        proof {
            lemma_join_split(self.hi_64_bits, self.lo_64_bits);
        }
        ((self.hi_64_bits as u128) << 64) | (self.lo_64_bits as u128)
    }

    /// The address with the bits `bits`, encoded for the wire: the bits are
    /// put in big-endian byte order by this machine, then split.
    pub fn from_bits(bits: u128) -> (r: Ipv6Addr)
        ensures
            r == spec_wire(bits),
    {
        Ipv6Addr::from_u128(u128_to_be(bits))
    }
}

/// The address with the bits `value`, encoded for the wire as `from_bits`
/// encodes it.
impl From<u128> for Ipv6Addr {
    fn from(value: u128) -> (r: Ipv6Addr) {
        Ipv6Addr::from_bits(value)
    }
}

impl vstd::std_specs::convert::FromSpecImpl<u128> for Ipv6Addr {
    open spec fn obeys_from_spec() -> bool {
        true
    }

    open spec fn from_spec(value: u128) -> Ipv6Addr {
        spec_wire(value)
    }
}

// ---------------------------------------------------------------------------
// Byte order
// ---------------------------------------------------------------------------

/// `x` with its four bytes in reverse order.
pub open spec fn spec_swap_bytes_u32(x: u32) -> u32 {
    ((x & 0xff) << 24) | ((x & 0xff00) << 8) | ((x >> 8) & 0xff00) | (x >> 24)
}

/// `x` with its eight bytes in reverse order.
pub open spec fn spec_swap_bytes_u64(x: u64) -> u64 {
    ((spec_swap_bytes_u32((x & 0xffff_ffff) as u32) as u64) << 32) | (spec_swap_bytes_u32(
        (x >> 32) as u32,
    ) as u64)
}

/// `x` with its sixteen bytes in reverse order.
pub open spec fn spec_swap_bytes_u128(x: u128) -> u128 {
    ((spec_swap_bytes_u64((x & 0xffff_ffff_ffff_ffff) as u64) as u128) << 64) | (
    spec_swap_bytes_u64((x >> 64) as u64) as u128)
}

/// `x` with its four bytes in reverse order.
#[verifier::when_used_as_spec(spec_swap_bytes_u32)]
pub fn swap_bytes_u32(x: u32) -> (r: u32)
    ensures
        r == spec_swap_bytes_u32(x),
{
    ((x & 0xff) << 24) | ((x & 0xff00) << 8) | ((x >> 8) & 0xff00) | (x >> 24)
}

/// `x` with its eight bytes in reverse order.
#[verifier::when_used_as_spec(spec_swap_bytes_u64)]
pub fn swap_bytes_u64(x: u64) -> (r: u64)
    ensures
        r == spec_swap_bytes_u64(x),
{
    let low: u32 = (x & 0xffff_ffff) as u32;
    let high: u32 = (x >> 32) as u32;
    ((swap_bytes_u32(low) as u64) << 32) | (swap_bytes_u32(high) as u64)
}

/// `x` with its sixteen bytes in reverse order.
#[verifier::when_used_as_spec(spec_swap_bytes_u128)]
pub fn swap_bytes_u128(x: u128) -> (r: u128)
    ensures
        r == spec_swap_bytes_u128(x),
{
    let low: u64 = (x & 0xffff_ffff_ffff_ffff) as u64;
    let high: u64 = (x >> 64) as u64;
    ((swap_bytes_u64(low) as u128) << 64) | (swap_bytes_u64(high) as u128)
}

/// `x` put in big-endian byte order by a machine of the byte order `host`,
/// or taken out of it: the same on a big-endian machine, and the bytes in
/// reverse on a little-endian one.
pub open spec fn spec_to_be_on(x: u128, host: vstd::endian::Endian) -> u128 {
    match host {
        vstd::endian::Endian::Big => x,
        vstd::endian::Endian::Little => spec_swap_bytes_u128(x),
    }
}

/// `x` put in big-endian byte order by a machine of the byte order `host`.
pub open spec fn spec_u32_to_be_on(x: u32, host: vstd::endian::Endian) -> u32 {
    match host {
        vstd::endian::Endian::Big => x,
        vstd::endian::Endian::Little => spec_swap_bytes_u32(x),
    }
}

/// `x` put in big-endian byte order by the machine that runs.
pub open spec fn spec_to_be(x: u128) -> u128 {
    spec_to_be_on(x, vstd::endian::endianness())
}

/// `x` put in big-endian byte order by the machine that runs.
pub open spec fn spec_u32_to_be(x: u32) -> u32 {
    spec_u32_to_be_on(x, vstd::endian::endianness())
}

/// The address that a machine of the order `host` sends for the address
/// bits `bits`.
pub open spec fn spec_wire_of(bits: u128, host: vstd::endian::Endian) -> Ipv6Addr {
    Ipv6Addr::spec_from_u128(spec_to_be_on(bits, host))
}

/// The address that the machine that runs sends for the address bits
/// `bits`.
pub open spec fn spec_wire(bits: u128) -> Ipv6Addr {
    spec_wire_of(bits, vstd::endian::endianness())
}

/// The address bits that a machine of the order `host` reads out of the two
/// halves that it was sent.
pub open spec fn spec_bits_of(wire: Ipv6Addr, host: vstd::endian::Endian) -> u128 {
    spec_to_be_on(wire.spec_to_u128(), host)
}

/// Reversing the bytes twice gives the value back.
pub proof fn lemma_swap_bytes_twice(x: u128)
    ensures
        spec_swap_bytes_u128(spec_swap_bytes_u128(x)) == x,
{
    assert(spec_swap_bytes_u128(spec_swap_bytes_u128(x)) == x) by (bit_vector);
}

/// An address that is split into two halves for the wire and put together
/// again on the other side is the address that it was, bit for bit, where
/// both sides are machines of one byte order, whichever it is.
pub proof fn lemma_address_round_trip(bits: u128, host: vstd::endian::Endian)
    ensures
        spec_bits_of(spec_wire_of(bits, host), host) == bits,
        spec_bits_of(spec_wire(bits), vstd::endian::endianness()) == bits,
{
    lemma_split_join(spec_to_be(bits));
    lemma_split_join(spec_to_be_on(bits, host));
    lemma_swap_bytes_twice(bits);
}

/// `u32::to_be` of std: `x` in big-endian byte order. On a big-endian
/// machine that is `x`, and on a little-endian one `x` with its bytes
/// reversed. The machine's byte order is vstd's `endianness()`.
#[verifier::external_body]
fn u32_to_be(x: u32) -> (r: u32)
    ensures
        r == spec_u32_to_be(x),
{
    x.to_be()
}

/// `u128::to_be` of std: `x` in big-endian byte order. On a big-endian
/// machine that is `x`, and on a little-endian one `x` with its bytes
/// reversed. The machine's byte order is vstd's `endianness()`.
#[verifier::external_body]
fn u128_to_be(x: u128) -> (r: u128)
    ensures
        r == spec_to_be(x),
{
    x.to_be()
}

/// The IPv4 address with the bits `bits`, encoded for the wire: the bits
/// put in big-endian byte order by this machine.
pub fn ipv4_wire_bits(bits: u32) -> (r: u32)
    ensures
        r == spec_u32_to_be(bits),
{
    u32_to_be(bits)
}

// ---------------------------------------------------------------------------
// The facts of a host
// ---------------------------------------------------------------------------

/// The processor family that a CPU snapshot tells of.
#[derive(Clone, Debug, PartialEq, Eq)]
pub enum CpuInfo {
    X86_64,
    Arm64,
    /// A family that the agent has no reader for, under the name the kernel
    /// gives it.
    Unsupported(String),
}

/// The operating system that an OS snapshot tells of.
#[derive(Clone, Debug, PartialEq, Eq)]
pub struct OsInfo {
    /// The distribution's name.
    pub distro: String,
    /// The kernel's version.
    pub kernel: String,
}

/// What was found out about the host, before it is encoded for the wire.
/// The addresses are the plain bits of the address.
#[derive(Clone, Debug, PartialEq, Eq)]
pub struct RawInfo {
    pub os: Option<String>,
    pub arch: Option<String>,
    pub hostname: Option<String>,
    pub kernel_version: Option<String>,
    pub ipv4: Option<u32>,
    pub ipv6: Option<u128>,
}

/// The name under which a processor family registers.
pub open spec fn spec_architecture(cpu: CpuInfo) -> Seq<char> {
    match cpu {
        CpuInfo::X86_64 => "x86_64"@,
        CpuInfo::Arm64 => "aarch64"@,
        CpuInfo::Unsupported(name) => name@,
    }
}

/// The name under which a processor family registers.
pub fn architecture(cpu: CpuInfo) -> (r: String)
    ensures
        r@ == spec_architecture(cpu),
{
    match cpu {
        CpuInfo::X86_64 => "x86_64".to_owned(),
        CpuInfo::Arm64 => "aarch64".to_owned(),
        CpuInfo::Unsupported(name) => name,
    }
}

impl CpuInfo {
    /// The processor family that registers under `name`: the family that
    /// `architecture` names so. A name of no family that the agent has a
    /// reader for is kept as it is.
    pub fn from_arch(name: &str) -> (r: CpuInfo)
        ensures
            spec_architecture(r) == name@,
            r is X86_64 <==> name@ == "x86_64"@,
            r is Arm64 <==> name@ == "aarch64"@,
    {
        proof {
            reveal_strlit("x86_64");
            reveal_strlit("aarch64");
        }
        let chars = chars_of(name);
        if same_text(chars.as_slice(), "x86_64") {
            CpuInfo::X86_64
        } else if same_text(chars.as_slice(), "aarch64") {
            CpuInfo::Arm64
        } else {
            CpuInfo::Unsupported(name.to_owned())
        }
    }
}

impl RawInfo {
    /// Puts together what the probes of a host gave. Each probe may have
    /// failed, and then gives `None`.
    pub fn new(
        hostname: Option<String>,
        ipv4: Option<u32>,
        ipv6: Option<u128>,
        cpu: Option<CpuInfo>,
        os: Option<OsInfo>,
    ) -> (r: RawInfo)
        ensures
            r.hostname == hostname,
            r.ipv4 == ipv4,
            r.ipv6 == ipv6,
            match cpu {
                Some(c) => r.arch matches Some(a) && a@ == spec_architecture(c),
                None => r.arch is None,
            },
            match os {
                Some(o) => r.os == Some(o.distro) && r.kernel_version == Some(o.kernel),
                None => r.os is None && r.kernel_version is None,
            },
    {
        let arch = match cpu {
            Some(c) => Some(architecture(c)),
            None => None,
        };
        let (os, kernel_version) = match os {
            Some(o) => (Some(o.distro), Some(o.kernel)),
            None => (None, None),
        };
        RawInfo { os, arch, hostname, kernel_version, ipv4, ipv6 }
    }
}

/// The IPv4 address that the wire carries for the address bits `bits`,
/// where the address is known.
pub open spec fn ipv4_encodes(bits: Option<u32>) -> Option<u32> {
    match bits {
        Some(b) => Some(spec_u32_to_be(b)),
        None => None,
    }
}

/// The IPv6 address that the wire carries for the address bits `bits`,
/// where the address is known.
pub open spec fn ipv6_encodes(bits: Option<u128>) -> Option<Ipv6Addr> {
    match bits {
        Some(b) => Some(spec_wire(b)),
        None => None,
    }
}

impl SendHostInfoReq {
    /// The registration of the instance `instance_id` with the facts, the
    /// addresses being encoded for the wire already.
    pub fn with_addresses(
        instance_id: String,
        raw: RawInfo,
        local_ipv4_addr: Option<u32>,
        local_ipv6_addr: Option<Ipv6Addr>,
    ) -> (r: SendHostInfoReq)
        ensures
            r == (SendHostInfoReq {
                instance_id,
                os: raw.os,
                architecture: raw.arch,
                hostname: raw.hostname,
                kernel_version: raw.kernel_version,
                local_ipv4_addr,
                local_ipv6_addr,
            }),
    {
        SendHostInfoReq {
            instance_id,
            os: raw.os,
            architecture: raw.arch,
            hostname: raw.hostname,
            kernel_version: raw.kernel_version,
            local_ipv4_addr,
            local_ipv6_addr,
        }
    }

    /// The registration of the instance `instance_id` with the facts `raw`.
    /// The texts go over as they are; each address that is known is encoded
    /// for the wire.
    pub fn new(instance_id: String, raw: RawInfo) -> (r: SendHostInfoReq)
        ensures
            r == (SendHostInfoReq {
                instance_id,
                os: raw.os,
                architecture: raw.arch,
                hostname: raw.hostname,
                kernel_version: raw.kernel_version,
                local_ipv4_addr: ipv4_encodes(raw.ipv4),
                local_ipv6_addr: ipv6_encodes(raw.ipv6),
            }),
    {
        let local_ipv4_addr = match raw.ipv4 {
            Some(bits) => Some(ipv4_wire_bits(bits)),
            None => None,
        };
        let local_ipv6_addr = match raw.ipv6 {
            Some(bits) => Some(Ipv6Addr::from_bits(bits)),
            None => None,
        };
        SendHostInfoReq::with_addresses(instance_id, raw, local_ipv4_addr, local_ipv6_addr)
    }
}

} // verus!
