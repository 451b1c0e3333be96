use nmstate::addr::parse_ipv6;
use nmstate::ip::token::sanitize_ipv6_token_to_string;
use nmstate::{
    Dhcpv4ClientId, Dhcpv6Duid, ErrorKind, InterfaceIpAddr, InterfaceIpv4, InterfaceIpv6, IpAddr,
    IpProp, MptcpAddressFlag,
};

fn addr(text: &str) -> InterfaceIpAddr {
    InterfaceIpAddr::try_from(text).unwrap()
}

fn auto_addr(text: &str) -> InterfaceIpAddr {
    let mut a = addr(text);
    a.valid_life_time = Some("3600sec".to_string());
    a.preferred_life_time = Some("1800sec".to_string());
    a
}

fn static_v4(addrs: Vec<InterfaceIpAddr>) -> InterfaceIpv4 {
    let mut ip = InterfaceIpv4::new();
    ip.enabled = true;
    ip.dhcp = Some(false);
    ip.addresses = Some(addrs);
    ip
}

fn static_v6(addrs: Vec<InterfaceIpAddr>) -> InterfaceIpv6 {
    let mut ip = InterfaceIpv6::new();
    ip.enabled = true;
    ip.dhcp = Some(false);
    ip.autoconf = Some(false);
    ip.addresses = Some(addrs);
    ip
}

#[test]
fn test_new_stack_is_disabled() {
    let v4 = InterfaceIpv4::new();
    assert!(!v4.enabled);
    assert!(v4.allow_extra_address);
    assert_eq!(v4.dhcp, None);
    assert_eq!(v4.addresses, None);
    assert!(v4.prop_list.is_empty());
    assert!(!v4.is_auto());
    assert!(!v4.is_static());
    let v6 = InterfaceIpv6::default();
    assert!(!v6.enabled);
    assert!(v6.allow_extra_address);
    assert_eq!(v6.autoconf, None);
    assert_eq!(v6.token, None);
    assert!(!v6.is_auto());
    assert!(!v6.is_static());
    assert_eq!(v4, InterfaceIpv4::default());
    assert_eq!(v6, InterfaceIpv6::new());
}

#[test]
fn test_is_auto_and_is_static() {
    let mut v4 = static_v4(vec![addr("192.0.2.1/24")]);
    assert!(v4.is_static());
    assert!(!v4.is_auto());
    v4.dhcp = Some(true);
    assert!(v4.is_auto());
    assert!(!v4.is_static());
    v4.enabled = false;
    assert!(!v4.is_auto());
    assert!(!v4.is_static());
    let mut v6 = static_v6(vec![]);
    assert!(!v6.is_static());
    v6.addresses = None;
    assert!(!v6.is_static());
    v6.autoconf = Some(true);
    assert!(v6.is_auto());
    v6.autoconf = Some(false);
    v6.dhcp = Some(true);
    assert!(v6.is_auto());
}

#[test]
fn test_address_is_auto() {
    let mut a = addr("192.0.2.1/24");
    assert!(!a.is_auto());
    a.valid_life_time = Some("forever".to_string());
    assert!(!a.is_auto());
    a.valid_life_time = Some("32sec".to_string());
    assert!(a.is_auto());
    a.valid_life_time = None;
    a.preferred_life_time = Some("32sec".to_string());
    assert!(!a.is_auto());
}

#[test]
fn test_empty_address_list_disables_stack() {
    let mut ip = InterfaceIpv4::new();
    ip.enabled = true;
    ip.addresses = Some(Vec::new());
    ip.prop_list = vec![IpProp::Enabled, IpProp::Addresses];
    ip.sanitize(true).unwrap();
    assert!(!ip.enabled);
    assert_eq!(ip.addresses, None);
    assert_eq!(ip.dhcp, None);
}

#[test]
fn test_empty_address_list_disables_ipv6_stack() {
    let mut ip = static_v6(vec![]);
    ip.sanitize(true).unwrap();
    assert!(!ip.enabled);
    assert_eq!(ip.addresses, None);
    assert_eq!(ip.dhcp, None);
    assert_eq!(ip.autoconf, None);
}

#[test]
fn test_only_auto_addresses_disable_static_stack() {
    let mut ip = static_v4(vec![auto_addr("192.0.2.7/24")]);
    ip.sanitize(false).unwrap();
    assert!(!ip.enabled);
    assert_eq!(ip.addresses, None);
}

#[test]
fn test_sanitize_rejects_wrong_family() {
    let mut ip = static_v4(vec![addr("192.0.2.1/24"), addr("2001:db8::1/64")]);
    let before = ip.clone();
    let e = ip.sanitize(true).unwrap_err();
    assert_eq!(e.kind(), ErrorKind::InvalidArgument);
    assert_eq!(ip, before);

    let mut ip6 = static_v6(vec![addr("192.0.2.1/24")]);
    let e = ip6.sanitize(true).unwrap_err();
    assert_eq!(e.kind(), ErrorKind::InvalidArgument);
}

#[test]
fn test_sanitize_rejects_long_prefix() {
    let mut ip = static_v4(vec![addr("192.0.2.1/33")]);
    assert_eq!(ip.sanitize(true).unwrap_err().kind(), ErrorKind::InvalidArgument);
    let mut ip = static_v4(vec![addr("192.0.2.1/32")]);
    assert!(ip.sanitize(true).is_ok());
    let mut ip6 = static_v6(vec![addr("2001:db8::1/129")]);
    assert_eq!(ip6.sanitize(true).unwrap_err().kind(), ErrorKind::InvalidArgument);
    let mut ip6 = static_v6(vec![addr("2001:db8::1/128")]);
    assert!(ip6.sanitize(true).is_ok());
}

#[test]
fn test_sanitize_checks_only_desired() {
    let mut ip = static_v4(vec![addr("192.0.2.1/33"), addr("2001:db8::1/64")]);
    ip.sanitize(false).unwrap();
    assert_eq!(ip.addresses, Some(vec![addr("192.0.2.1/33"), addr("2001:db8::1/64")]));
    let mut ip6 = static_v6(vec![addr("192.0.2.1/24"), addr("2001:db8::1/64")]);
    ip6.sanitize(false).unwrap();
    assert_eq!(ip6.addresses, Some(vec![addr("2001:db8::1/64")]));
}

#[test]
fn test_sanitize_drops_link_local_and_auto() {
    let mut flagged = addr("2001:db8::2/64");
    flagged.mptcp_flags = Some(vec![MptcpAddressFlag::Signal, MptcpAddressFlag::Backup]);
    flagged.valid_life_time = Some("forever".to_string());
    flagged.preferred_life_time = Some("forever".to_string());
    let mut ip = static_v6(vec![
        addr("fe80::1/64"),
        addr("2001:db8::1/64"),
        auto_addr("2001:db8::99/64"),
        flagged,
    ]);
    ip.sanitize(true).unwrap();
    assert!(ip.enabled);
    assert_eq!(ip.addresses, Some(vec![addr("2001:db8::1/64"), addr("2001:db8::2/64")]));
    for a in ip.addresses.as_ref().unwrap() {
        assert!(a.ip.is_ipv6());
        assert!(!a.is_auto());
        assert!(!a.is_link_local());
        assert_eq!(a.valid_life_time, None);
        assert_eq!(a.preferred_life_time, None);
        assert_eq!(a.mptcp_flags, None);
    }
}

#[test]
fn test_dynamic_stack_gets_defaults() {
    let mut ip = InterfaceIpv4::new();
    ip.enabled = true;
    ip.dhcp = Some(true);
    ip.auto_dns = Some(false);
    ip.auto_table_id = Some(100);
    ip.auto_route_metric = Some(7);
    ip.dhcp_client_id = Some(Dhcpv4ClientId::LinkLayerAddress);
    ip.dhcp_send_hostname = Some(true);
    ip.dhcp_custom_hostname = Some("host1".to_string());
    ip.sanitize(true).unwrap();
    assert!(ip.enabled);
    assert_eq!(ip.dhcp, Some(true));
    assert_eq!(ip.auto_dns, Some(false));
    assert_eq!(ip.auto_routes, Some(true));
    assert_eq!(ip.auto_gateway, Some(true));
    assert_eq!(ip.auto_table_id, Some(100));
    assert_eq!(ip.auto_route_metric, Some(7));
    assert_eq!(ip.dhcp_client_id, Some(Dhcpv4ClientId::LinkLayerAddress));
    assert_eq!(ip.dhcp_send_hostname, Some(true));
    assert_eq!(ip.dhcp_custom_hostname, Some("host1".to_string()));
}

#[test]
fn test_static_stack_loses_dynamic_options() {
    let mut ip = static_v4(vec![addr("192.0.2.1/24")]);
    ip.auto_dns = Some(true);
    ip.auto_routes = Some(false);
    ip.auto_gateway = Some(true);
    ip.auto_table_id = Some(100);
    ip.auto_route_metric = Some(7);
    ip.dhcp_client_id = Some(Dhcpv4ClientId::Other("abc".to_string()));
    ip.dhcp_send_hostname = Some(true);
    ip.dhcp_custom_hostname = Some("host1".to_string());
    ip.sanitize(true).unwrap();
    assert!(ip.enabled);
    assert_eq!(ip.dhcp, Some(false));
    assert_eq!(ip.addresses, Some(vec![addr("192.0.2.1/24")]));
    assert_eq!(ip.auto_dns, None);
    assert_eq!(ip.auto_routes, None);
    assert_eq!(ip.auto_gateway, None);
    assert_eq!(ip.auto_table_id, None);
    assert_eq!(ip.auto_route_metric, None);
    assert_eq!(ip.dhcp_client_id, None);
    assert_eq!(ip.dhcp_send_hostname, None);
    assert_eq!(ip.dhcp_custom_hostname, None);

    let mut ip6 = static_v6(vec![addr("2001:db8::1/64")]);
    ip6.dhcp_duid = Some(Dhcpv6Duid::Uuid);
    ip6.auto_dns = Some(true);
    ip6.sanitize(true).unwrap();
    assert_eq!(ip6.dhcp_duid, None);
    assert_eq!(ip6.auto_dns, None);
}

#[test]
fn test_disabled_stack_is_canonical() {
    let mut ip = InterfaceIpv6::new();
    ip.enabled = false;
    ip.dhcp = Some(true);
    ip.autoconf = Some(true);
    ip.addresses = Some(vec![addr("2001:db8::1/64")]);
    ip.auto_dns = Some(true);
    ip.sanitize(true).unwrap();
    assert!(!ip.enabled);
    assert_eq!(ip.dhcp, None);
    assert_eq!(ip.autoconf, None);
    assert_eq!(ip.addresses, None);
    assert_eq!(ip.auto_dns, None);
}

#[test]
fn test_hostname_not_sent_drops_custom_hostname() {
    let mut ip = InterfaceIpv4::new();
    ip.enabled = true;
    ip.dhcp = Some(true);
    ip.dhcp_send_hostname = Some(false);
    ip.dhcp_custom_hostname = Some("host1".to_string());
    ip.sanitize(true).unwrap();
    assert_eq!(ip.dhcp_send_hostname, Some(false));
    assert_eq!(ip.dhcp_custom_hostname, None);
}

#[test]
fn test_sanitize_is_idempotent() {
    let mut ip = static_v6(vec![
        addr("fe80::1/64"),
        addr("2001:db8::1/64"),
        auto_addr("2001:db8::99/64"),
    ]);
    ip.token = Some("::0.0.250.193".to_string());
    ip.autoconf = Some(true);
    ip.sanitize(true).unwrap();
    let once = ip.clone();
    ip.sanitize(true).unwrap();
    assert_eq!(ip, once);
    ip.sanitize(false).unwrap();
    assert_eq!(ip, once);

    let mut v4 = static_v4(vec![auto_addr("192.0.2.1/24"), addr("192.0.2.2/24")]);
    v4.auto_dns = Some(true);
    v4.sanitize(true).unwrap();
    let once = v4.clone();
    v4.sanitize(true).unwrap();
    assert_eq!(v4, once);
}

#[test]
fn test_ipv6_token_is_canonicalized() {
    let mut ip = InterfaceIpv6::new();
    ip.enabled = true;
    ip.autoconf = Some(true);
    ip.token = Some("::0.0.250.193".to_string());
    ip.sanitize(true).unwrap();
    assert_eq!(ip.token, Some("::fac1".to_string()));
}

#[test]
fn test_ipv6_token_forms() {
    let cases = [
        ("", "::"),
        ("::", "::"),
        ("::fac1", "::fac1"),
        ("::FAC1", "::fac1"),
        ("0:0:0:0:0:0:0:1", "::1"),
        ("::1:2:3:4", "::1:2:3:4"),
        ("::1:0:0:1", "::1:0:0:1"),
        ("::ffff:ffff:ffff:ffff", "::ffff:ffff:ffff:ffff"),
        ("::0.0.0.0", "::"),
    ];
    for (given, want) in cases {
        let mut ip = InterfaceIpv6::new();
        ip.enabled = true;
        ip.autoconf = Some(true);
        ip.token = Some(given.to_string());
        ip.sanitize(true).unwrap();
        assert_eq!(ip.token, Some(want.to_string()), "{}", given);
    }
}

#[test]
fn test_ipv6_token_with_autoconf_off_is_refused() {
    let mut ip = InterfaceIpv6::new();
    ip.enabled = true;
    ip.autoconf = Some(false);
    ip.addresses = Some(vec![addr("2001:db8::1/64")]);
    ip.token = Some("::fac1".to_string());
    let e = ip.sanitize(true).unwrap_err();
    assert_eq!(e.kind(), ErrorKind::InvalidArgument);
    assert_eq!(ip.token, Some("::fac1".to_string()));
}

#[test]
fn test_ipv6_token_reset_with_autoconf_off() {
    for t in ["", "::"] {
        let mut ip = InterfaceIpv6::new();
        ip.enabled = true;
        ip.autoconf = Some(false);
        ip.addresses = Some(vec![addr("2001:db8::1/64")]);
        ip.token = Some(t.to_string());
        ip.sanitize(true).unwrap();
        assert_eq!(ip.token, Some("::".to_string()));
    }
    let mut ip = InterfaceIpv6::new();
    ip.enabled = true;
    ip.autoconf = Some(false);
    ip.addresses = Some(vec![addr("2001:db8::1/64")]);
    ip.token = Some("::fac1".to_string());
    ip.sanitize(false).unwrap();
    assert_eq!(ip.token, Some("::fac1".to_string()));
}

#[test]
fn test_ipv6_token_must_be_an_address_with_leading_zero_bits() {
    for t in ["2001:db8::1", "1::", "::1:0:0:0:1", "nonsense", "192.0.2.1"] {
        let mut ip = InterfaceIpv6::new();
        ip.enabled = true;
        ip.autoconf = Some(true);
        ip.token = Some(t.to_string());
        let e = ip.sanitize(false).unwrap_err();
        assert_eq!(e.kind(), ErrorKind::InvalidArgument, "{}", t);
        assert_eq!(ip.token, Some(t.to_string()));
    }
}

#[test]
fn test_family_purity_after_sanitize() {
    let mut v4 = static_v4(vec![addr("192.0.2.1/24"), auto_addr("192.0.2.9/24")]);
    v4.sanitize(true).unwrap();
    for a in v4.addresses.as_ref().unwrap() {
        assert!(a.ip.is_ipv4());
        assert!(matches!(a.ip, IpAddr::V4(_)));
    }
    let mut v6 = static_v6(vec![addr("2001:db8::1/64"), addr("fe80::2/64")]);
    v6.sanitize(false).unwrap();
    for a in v6.addresses.as_ref().unwrap() {
        assert!(a.ip.is_ipv6());
        assert!(!a.is_link_local());
    }
}

#[test]
fn test_token_that_ends_in_three_zero_segments() {
    let mut ip = InterfaceIpv6::new();
    ip.enabled = true;
    ip.autoconf = Some(true);
    ip.token = Some("::1:0:0:0".to_string());
    ip.sanitize(true).unwrap();
    assert_eq!(ip.token, Some("::1:0:0:0".to_string()));
    let once = ip.clone();
    ip.sanitize(true).unwrap();
    assert_eq!(ip, once);
}

#[test]
fn test_token_text_reads_back_as_the_same_token() {
    let cases = [
        ("0:0:0:0:1:0:0:0", "::1:0:0:0"),
        ("::ffff:0:0:0", "::ffff:0:0:0"),
        ("::0:5:0:0", "::5:0:0"),
        ("::ffff:0.1.0.2", "::ffff:1:2"),
        ("::FFFF:255.255.255.255", "::ffff:ffff:ffff"),
        ("::a:0:0:b", "::a:0:0:b"),
        ("::0:0:1:0", "::1:0"),
        ("::1", "::1"),
        ("::", "::"),
    ];
    for (given, want) in cases {
        let mut token = given.to_string();
        sanitize_ipv6_token_to_string(&mut token).unwrap();
        assert_eq!(token, want, "{}", given);
        assert!(!token.contains('.'));
        let value = parse_ipv6(&given.chars().collect::<Vec<char>>()).unwrap();
        assert_eq!(parse_ipv6(&token.chars().collect::<Vec<char>>()), Some(value));
        let mut again = token.clone();
        sanitize_ipv6_token_to_string(&mut again).unwrap();
        assert_eq!(again, token);
    }
}
