use psh::services::host_info::{
    architecture, ipv4_wire_bits, swap_bytes_u128, swap_bytes_u32, swap_bytes_u64, CpuInfo, OsInfo,
    RawInfo,
};
use psh::services::pb::{Ipv6Addr, SendHostInfoReq};

#[test]
fn test_ipv6_into_pb_repr() {
    let var: u128 = 1;

    let raw: u128 = var;

    let pb_repr: Ipv6Addr = raw.into();

    let hi = (pb_repr.hi_64_bits as u128) << 64;
    let lo = pb_repr.lo_64_bits as u128;
    let ip = u128::from_be(hi | lo);

    assert_eq!(ip, 1);
}

#[test]
fn address_survives_the_wire_bit_for_bit() {
    let vectors: [u128; 5] = [
        0,
        u128::MAX,
        1,
        0x2001_0db8_85a3_0000_0000_8a2e_0370_7334,
        0x0123_4567_89ab_cdef_fedc_ba98_7654_3210,
    ];
    for bits in vectors {
        let wire = Ipv6Addr::from_bits(bits);
        assert_eq!(u128::from_be(wire.to_u128()), bits);
        assert_eq!(Ipv6Addr::from(bits), wire);
    }
}

#[test]
fn from_bits_puts_the_bits_in_big_endian_order() {
    let bits: u128 = 0x0001_0203_0405_0607_0809_0a0b_0c0d_0e0f;
    let wire = Ipv6Addr::from_bits(bits);
    assert_eq!(wire, Ipv6Addr::from_u128(bits.to_be()));
    assert_eq!(wire.to_u128().to_ne_bytes(), bits.to_be_bytes());
}

#[test]
fn halves_are_the_upper_and_the_lower_64_bits() {
    let ip: u128 = 0x0011_2233_4455_6677_8899_aabb_ccdd_eeff;
    let split = Ipv6Addr::from_u128(ip);
    assert_eq!(split.hi_64_bits, 0x0011_2233_4455_6677);
    assert_eq!(split.lo_64_bits, 0x8899_aabb_ccdd_eeff);
    assert_eq!(split.to_u128(), ip);
    assert_eq!(Ipv6Addr::from_u128(1), Ipv6Addr { hi_64_bits: 0, lo_64_bits: 1 });
    assert_eq!(Ipv6Addr::from_u128(1u128 << 64), Ipv6Addr { hi_64_bits: 1, lo_64_bits: 0 });
    assert_eq!(Ipv6Addr::from_u128(0), Ipv6Addr { hi_64_bits: 0, lo_64_bits: 0 });
    assert_eq!(
        Ipv6Addr::from_u128(u128::MAX),
        Ipv6Addr { hi_64_bits: u64::MAX, lo_64_bits: u64::MAX }
    );
}

#[test]
fn ipv4_goes_out_in_big_endian_order() {
    let bits: u32 = 0xc0a8_0001;
    assert_eq!(ipv4_wire_bits(bits), bits.to_be());
    assert_eq!(ipv4_wire_bits(bits).to_ne_bytes(), [192, 168, 0, 1]);
    assert_eq!(ipv4_wire_bits(0), 0);
    assert_eq!(ipv4_wire_bits(u32::MAX), u32::MAX);
}

#[test]
fn architecture_names_the_processor_family() {
    assert_eq!(architecture(CpuInfo::X86_64), "x86_64");
    assert_eq!(architecture(CpuInfo::Arm64), "aarch64");
    assert_eq!(architecture(CpuInfo::Unsupported("riscv64".to_string())), "riscv64");
}

#[test]
fn processor_family_is_known_by_its_name() {
    assert_eq!(CpuInfo::from_arch("x86_64"), CpuInfo::X86_64);
    assert_eq!(CpuInfo::from_arch("aarch64"), CpuInfo::Arm64);
    assert_eq!(CpuInfo::from_arch("riscv64"), CpuInfo::Unsupported("riscv64".to_string()));
    assert_eq!(CpuInfo::from_arch(""), CpuInfo::Unsupported(String::new()));
    for name in ["x86_64", "aarch64", "s390x", "X86_64"] {
        assert_eq!(architecture(CpuInfo::from_arch(name)), name);
    }
}

#[test]
fn raw_info_keeps_what_the_probes_gave() {
    let raw = RawInfo::new(
        Some("node-7".to_string()),
        Some(0x7f00_0001),
        Some(1),
        Some(CpuInfo::Arm64),
        Some(OsInfo { distro: "Debian".to_string(), kernel: "6.1.0".to_string() }),
    );
    assert_eq!(
        raw,
        RawInfo {
            os: Some("Debian".to_string()),
            arch: Some("aarch64".to_string()),
            hostname: Some("node-7".to_string()),
            kernel_version: Some("6.1.0".to_string()),
            ipv4: Some(0x7f00_0001),
            ipv6: Some(1),
        }
    );
}

#[test]
fn raw_info_of_failed_probes_is_empty() {
    let raw = RawInfo::new(None, None, None, None, None);
    assert_eq!(
        raw,
        RawInfo {
            os: None,
            arch: None,
            hostname: None,
            kernel_version: None,
            ipv4: None,
            ipv6: None,
        }
    );
}

#[test]
fn registration_carries_the_facts_and_encodes_the_addresses() {
    let raw = RawInfo {
        os: Some("Ubuntu".to_string()),
        arch: Some("x86_64".to_string()),
        hostname: Some("host".to_string()),
        kernel_version: Some("5.15".to_string()),
        ipv4: Some(0x0a00_0001),
        ipv6: Some(1),
    };
    let req = SendHostInfoReq::new("instance".to_string(), raw);
    assert_eq!(req.instance_id, "instance");
    assert_eq!(req.os.as_deref(), Some("Ubuntu"));
    assert_eq!(req.architecture.as_deref(), Some("x86_64"));
    assert_eq!(req.hostname.as_deref(), Some("host"));
    assert_eq!(req.kernel_version.as_deref(), Some("5.15"));
    assert_eq!(req.local_ipv4_addr, Some(0x0a00_0001u32.to_be()));
    assert_eq!(req.local_ipv6_addr, Some(Ipv6Addr::from_u128(1u128.to_be())));
}

#[test]
fn registration_of_an_unknown_host_has_only_the_instance() {
    let raw = RawInfo::new(None, None, None, None, None);
    let req = SendHostInfoReq::new("i".to_string(), raw);
    assert_eq!(
        req,
        SendHostInfoReq {
            instance_id: "i".to_string(),
            os: None,
            architecture: None,
            hostname: None,
            kernel_version: None,
            local_ipv4_addr: None,
            local_ipv6_addr: None,
        }
    );
}

#[test]
fn with_addresses_takes_the_addresses_as_they_are() {
    let raw = RawInfo {
        os: None,
        arch: None,
        hostname: Some("h".to_string()),
        kernel_version: None,
        ipv4: Some(7),
        ipv6: Some(9),
    };
    let wire = Ipv6Addr { hi_64_bits: 3, lo_64_bits: 4 };
    let req = SendHostInfoReq::with_addresses("i".to_string(), raw, Some(5), Some(wire));
    assert_eq!(req.local_ipv4_addr, Some(5));
    assert_eq!(req.local_ipv6_addr, Some(wire));
    assert_eq!(req.hostname.as_deref(), Some("h"));
}

#[test]
fn swapped_bytes_are_the_bytes_in_reverse_order() {
    for x in [0u32, 1, 0x0102_0304, 0xdead_beef, u32::MAX, 0x8000_0000, 0x00ff_00ff] {
        assert_eq!(swap_bytes_u32(x), x.swap_bytes());
    }
    for x in [0u64, 1, 0x0102_0304_0506_0708, u64::MAX, 1 << 63, 0x00ff_00ff_00ff_00ff] {
        assert_eq!(swap_bytes_u64(x), x.swap_bytes());
    }
    for x in [
        0u128,
        1,
        0x0102_0304_0506_0708_090a_0b0c_0d0e_0f10,
        u128::MAX,
        1 << 127,
        0x2001_0db8_85a3_0000_0000_8a2e_0370_7334,
    ] {
        assert_eq!(swap_bytes_u128(x), x.swap_bytes());
    }
}

#[test]
fn wire_order_is_the_value_or_its_bytes_swapped() {
    for bits in [1u32, 0xc0a8_0001, 0x0a00_0001] {
        let wire = ipv4_wire_bits(bits);
        assert!(wire == bits || wire == swap_bytes_u32(bits));
    }
    for bits in [1u128, 0x2001_0db8_85a3_0000_0000_8a2e_0370_7334] {
        let wire = Ipv6Addr::from_bits(bits);
        assert!(
            wire == Ipv6Addr::from_u128(bits) || wire == Ipv6Addr::from_u128(swap_bytes_u128(bits))
        );
    }
}

#[test]
fn wire_byte_order_follows_the_machine() {
    let little = u16::from_ne_bytes([1, 0]) == 1;
    let v4: u32 = 0xc0a8_0001;
    let v6: u128 = 0x2001_0db8_0000_0000_0000_0000_0000_0001;
    if little {
        assert_eq!(ipv4_wire_bits(v4), swap_bytes_u32(v4));
        assert_eq!(ipv4_wire_bits(v4), 0x0100_a8c0);
        assert_eq!(Ipv6Addr::from_bits(v6), Ipv6Addr::from_u128(swap_bytes_u128(v6)));
        assert_eq!(Ipv6Addr::from_bits(v6).hi_64_bits, 0x0100_0000_0000_0000);
        assert_eq!(Ipv6Addr::from_bits(v6).lo_64_bits, 0x0000_0000_b80d_0120);
    } else {
        assert_eq!(ipv4_wire_bits(v4), v4);
        assert_eq!(Ipv6Addr::from_bits(v6), Ipv6Addr::from_u128(v6));
    }
}
