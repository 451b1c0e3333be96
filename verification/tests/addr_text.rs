use nmstate::addr::{apply_ip_prefix_len, is_ipv6_unicast_link_local, parse_ip, parse_ipv4, parse_ipv6};
use nmstate::ip::network::sanitize_ip_network;
use nmstate::{ErrorKind, InterfaceIpAddr, IpAddr};

fn chars(s: &str) -> Vec<char> {
    s.chars().collect()
}

fn v4(s: &str) -> Option<u32> {
    parse_ipv4(&chars(s))
}

fn v6(s: &str) -> Option<u128> {
    parse_ipv6(&chars(s))
}

fn canon(s: &str) -> String {
    parse_ip(&chars(s)).unwrap().to_string()
}

#[test]
fn test_parse_ipv4_values() {
    assert_eq!(v4("192.0.2.5"), Some(0xC000_0205));
    assert_eq!(v4("0.0.0.0"), Some(0));
    assert_eq!(v4("255.255.255.255"), Some(0xFFFF_FFFF));
    assert_eq!(v4("10.0.0.1"), Some(0x0A00_0001));
}

#[test]
fn test_parse_ipv4_rejects() {
    assert_eq!(v4(""), None);
    assert_eq!(v4("1.2.3"), None);
    assert_eq!(v4("1.2.3.4.5"), None);
    assert_eq!(v4("256.0.0.1"), None);
    assert_eq!(v4("01.2.3.4"), None);
    assert_eq!(v4("1.2.3.04"), None);
    assert_eq!(v4("1..3.4"), None);
    assert_eq!(v4("1.2.3.4 "), None);
    assert_eq!(v4("+1.2.3.4"), None);
    assert_eq!(v4("1.2.3.1000"), None);
    assert_eq!(v4("a.b.c.d"), None);
}

#[test]
fn test_parse_ipv6_values() {
    assert_eq!(v6("::"), Some(0));
    assert_eq!(v6("::1"), Some(1));
    assert_eq!(v6("1::"), Some(1u128 << 112));
    assert_eq!(v6("2001:db8::1"), Some(0x2001_0db8_0000_0000_0000_0000_0000_0001));
    assert_eq!(
        v6("1:2:3:4:5:6:7:8"),
        Some(0x0001_0002_0003_0004_0005_0006_0007_0008)
    );
    assert_eq!(v6("1:2:3:4:5:6:7::"), Some(0x0001_0002_0003_0004_0005_0006_0007_0000));
    assert_eq!(v6("::2:3:4:5:6:7:8"), Some(0x0000_0002_0003_0004_0005_0006_0007_0008));
    assert_eq!(v6("::ffff:192.0.2.1"), Some(0xffff_c000_0201));
    assert_eq!(v6("::FFFF:192.0.2.2"), Some(0xffff_c000_0202));
    assert_eq!(v6("0:0:0:0:0:FFFF:192.0.2.1"), Some(0xffff_c000_0201));
    assert_eq!(v6("::0.0.250.193"), Some(0xfac1));
    assert_eq!(v6("03:0000:000:00:0::4"), Some((3u128 << 112) | 4));
    assert_eq!(v6("fe80::1"), Some(0xfe80_0000_0000_0000_0000_0000_0000_0001));
    assert_eq!(v6("1:2:3:4:5:6:1.2.3.4"), Some(0x0001_0002_0003_0004_0005_0006_0102_0304));
}

#[test]
fn test_parse_ipv6_rejects() {
    assert_eq!(v6(""), None);
    assert_eq!(v6(":"), None);
    assert_eq!(v6(":::"), None);
    assert_eq!(v6("1:2:3:4:5:6:7"), None);
    assert_eq!(v6("1:2:3:4:5:6:7:8:9"), None);
    assert_eq!(v6("1:2:3:4:5:6:7:8::"), None);
    assert_eq!(v6("::1::"), None);
    assert_eq!(v6("1::2::3"), None);
    assert_eq!(v6(":1::"), None);
    assert_eq!(v6("::1:"), None);
    assert_eq!(v6("12345::"), None);
    assert_eq!(v6("g::"), None);
    assert_eq!(v6("fe80::1%eth0"), None);
    assert_eq!(v6("1:2:3:4:5:6:7:1.2.3.4"), None);
    assert_eq!(v6("1.2.3.4::"), None);
    assert_eq!(v6("::1.2.3.4:5"), None);
    assert_eq!(v6("1:2:3:4:5:6::1.2.3.4"), None);
    assert_eq!(v6("192.0.2.1"), None);
}

#[test]
fn test_parse_ip_picks_family() {
    assert_eq!(parse_ip(&chars("192.0.2.1")), Some(IpAddr::V4(0xC000_0201)));
    assert_eq!(parse_ip(&chars("::1")), Some(IpAddr::V6(1)));
    assert_eq!(parse_ip(&chars("example.com")), None);
    assert!(IpAddr::V4(1).is_ipv4());
    assert!(!IpAddr::V4(1).is_ipv6());
    assert!(IpAddr::V6(1).is_ipv6());
    assert!(!IpAddr::V6(1).is_ipv4());
}

#[test]
fn test_ipv4_text() {
    assert_eq!(IpAddr::V4(0xC000_0205).to_string(), "192.0.2.5");
    assert_eq!(IpAddr::V4(0).to_string(), "0.0.0.0");
    assert_eq!(IpAddr::V4(0xFFFF_FFFF).to_string(), "255.255.255.255");
    assert_eq!(IpAddr::V4(0x0A64_0109).to_string(), "10.100.1.9");
}

#[test]
fn test_ipv6_text_compresses_longest_zero_run() {
    assert_eq!(IpAddr::V6(0).to_string(), "::");
    assert_eq!(IpAddr::V6(1).to_string(), "::1");
    assert_eq!(canon("3000:0000:0000:0000:0000:0000:0000:0000"), "3000::");
    assert_eq!(canon("0000:0000:0000:0000:0000:0000:0000:0100"), "::100");
    assert_eq!(canon("0000:0000:000F:0000:0000:0000:0000:0100"), "0:0:f::100");
    assert_eq!(canon("3001:db8::1:1:1:1:1"), "3001:db8:0:1:1:1:1:1");
    assert_eq!(canon("3001:db8:0:0:0:0:2:1"), "3001:db8::2:1");
    assert_eq!(canon("3002:0:0:1:0:0:0:1"), "3002:0:0:1::1");
    assert_eq!(canon("3003:dB8:0:0:1:0:0:1"), "3003:db8::1:0:0:1");
    assert_eq!(canon("3005:DB8:0:0:1::1"), "3005:db8::1:0:0:1");
    assert_eq!(canon("03:0000:000:00:0::4"), "3::4");
    assert_eq!(canon("1:2:3:4:5:6:7:8"), "1:2:3:4:5:6:7:8");
    assert_eq!(canon("1:0:3:4:5:6:7:8"), "1:0:3:4:5:6:7:8");
    assert_eq!(canon("1:2:3:4:5:6:0:0"), "1:2:3:4:5:6::");
    assert_eq!(canon("FE80::ABCD"), "fe80::abcd");
}

#[test]
fn test_ipv6_text_of_mapped_ipv4() {
    assert_eq!(canon("0:0:0:0:0:FFFF:192.0.2.1"), "::ffff:192.0.2.1");
    assert_eq!(canon("::ffff:c000:0201"), "::ffff:192.0.2.1");
    assert_eq!(canon("::0.0.250.193"), "::fac1");
}

#[test]
fn test_same_address_same_text() {
    let pairs = [
        ("3000::", "3000:0000:0000:0000:0000:0000:0000:0000"),
        ("::ffff:192.0.2.1", "0:0:0:0:0:FFFF:192.0.2.1"),
        ("3::4", "03:0000:000:00:0::4"),
        ("3001:db8::1", "3001:db8::0:1"),
    ];
    for (a, b) in pairs {
        assert_eq!(v6(a), v6(b));
        assert_eq!(canon(a), canon(b));
    }
}

#[test]
fn test_text_round_trip() {
    for s in [
        "::",
        "::1",
        "fe80::1",
        "2001:db8::2:1",
        "1:2:3:4:5:6:7:8",
        "::ffff:10.0.0.1",
        "3002:0:0:1::1",
        "192.0.2.5",
    ] {
        assert_eq!(canon(s), s);
        assert_eq!(canon(&canon(s)), s);
    }
}

#[test]
fn test_link_local() {
    assert!(is_ipv6_unicast_link_local(v6("fe80::1").unwrap()));
    assert!(is_ipv6_unicast_link_local(v6("febf:ffff::1").unwrap()));
    assert!(!is_ipv6_unicast_link_local(v6("fec0::1").unwrap()));
    assert!(!is_ipv6_unicast_link_local(v6("fe7f::1").unwrap()));
    assert!(!is_ipv6_unicast_link_local(v6("2001:db8::1").unwrap()));
    assert!(!is_ipv6_unicast_link_local(0));
}

#[test]
fn test_apply_ip_prefix_len() {
    assert_eq!(apply_ip_prefix_len(IpAddr::V4(0xC000_0205), 24), IpAddr::V4(0xC000_0200));
    assert_eq!(apply_ip_prefix_len(IpAddr::V4(0xC000_0205), 0), IpAddr::V4(0));
    assert_eq!(apply_ip_prefix_len(IpAddr::V4(0xC000_0205), 32), IpAddr::V4(0xC000_0205));
    assert_eq!(apply_ip_prefix_len(IpAddr::V4(0xC000_0205), 40), IpAddr::V4(0xC000_0205));
    assert_eq!(apply_ip_prefix_len(IpAddr::V4(0xFFFF_FFFF), 1), IpAddr::V4(0x8000_0000));
    assert_eq!(apply_ip_prefix_len(IpAddr::V4(0xFFFF_FFFF), 31), IpAddr::V4(0xFFFF_FFFE));
    let a = v6("2001:db8:1:2:3:4:5:6").unwrap();
    assert_eq!(
        apply_ip_prefix_len(IpAddr::V6(a), 64),
        IpAddr::V6(v6("2001:db8:1:2::").unwrap())
    );
    assert_eq!(apply_ip_prefix_len(IpAddr::V6(a), 0), IpAddr::V6(0));
    assert_eq!(apply_ip_prefix_len(IpAddr::V6(a), 128), IpAddr::V6(a));
    assert_eq!(apply_ip_prefix_len(IpAddr::V6(a), 200), IpAddr::V6(a));
    assert_eq!(apply_ip_prefix_len(IpAddr::V6(u128::MAX), 127), IpAddr::V6(u128::MAX - 1));
}

#[test]
fn test_sanitize_ip_network() {
    assert_eq!(sanitize_ip_network("192.0.2.1").unwrap(), "192.0.2.1/32");
    assert_eq!(sanitize_ip_network("2001:db8:1::1").unwrap(), "2001:db8:1::1/128");
    assert_eq!(sanitize_ip_network("192.0.2.1/24").unwrap(), "192.0.2.0/24");
    assert_eq!(sanitize_ip_network("192.0.2.1/32").unwrap(), "192.0.2.1/32");
    assert_eq!(sanitize_ip_network("192.0.2.1/0").unwrap(), "0.0.0.0/0");
    assert_eq!(sanitize_ip_network("2001:db8:1::1/64").unwrap(), "2001:db8:1::/64");
    assert_eq!(sanitize_ip_network("2001:DB8:1:0:0:0:0:1/128").unwrap(), "2001:db8:1::1/128");
    assert_eq!(sanitize_ip_network("::1/0").unwrap(), "::/0");
    assert_eq!(sanitize_ip_network("10.1.2.3/024").unwrap(), "10.1.2.0/24");
}

#[test]
fn test_sanitize_ip_network_rejects() {
    for s in [
        "",
        "192.0.2.1/33",
        "2001:db8::/129",
        "192.0.2.1/24/1",
        "192.0.2.1/",
        "192.0.2.1/a",
        "192.0.2.1/-1",
        "/24",
        "example/24",
        "192.0.2.1/99999999999999999999999999",
    ] {
        let e = sanitize_ip_network(s).unwrap_err();
        assert_eq!(e.kind(), ErrorKind::InvalidArgument, "{}", s);
    }
}

#[test]
fn test_ip_addr_entry_from_text() {
    let a = InterfaceIpAddr::try_from("192.0.2.5/24").unwrap();
    assert_eq!(a.ip, IpAddr::V4(0xC000_0205));
    assert_eq!(a.prefix_length, 24);
    assert_eq!(a.mptcp_flags, None);
    assert_eq!(a.valid_life_time, None);
    assert_eq!(a.preferred_life_time, None);
    assert_eq!(InterfaceIpAddr::try_from("192.0.2.5").unwrap().prefix_length, 32);
    assert_eq!(InterfaceIpAddr::try_from("192.0.2.5/").unwrap().prefix_length, 32);
    assert_eq!(InterfaceIpAddr::try_from("::1").unwrap().prefix_length, 128);
    assert_eq!(InterfaceIpAddr::try_from("2001:db8::1/64").unwrap().prefix_length, 64);
    assert_eq!(InterfaceIpAddr::try_from("192.0.2.5/200").unwrap().prefix_length, 200);
    assert_eq!(InterfaceIpAddr::try_from("192.0.2.5/24/7").unwrap().prefix_length, 24);
    for s in ["", "x/24", "192.0.2.5/256", "192.0.2.5/x", "/24"] {
        let e = InterfaceIpAddr::try_from(s).unwrap_err();
        assert_eq!(e.kind(), ErrorKind::InvalidArgument, "{}", s);
    }
    let d = InterfaceIpAddr::default();
    assert_eq!(d.ip, IpAddr::V6(1));
    assert_eq!(d.prefix_length, 128);
}
