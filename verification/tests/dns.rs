use nmstate::dns::{canonical_dns_server, is_ipv6_addr, parse_dns_ipv6_link_local_srv};
use nmstate::nm::dns::{
    cur_dns_ifaces_still_valid_for_dns, extract_ipv6_link_local_iface_from_dns_srv, find_dns_iface,
    get_cur_dns_ifaces, is_external_managed, is_mixed_dns_servers, is_unmanaged,
    reselect_dns_ifaces,
};
use nmstate::nm::dns_search::{
    set_iface_dns_search_or_option, store_dns_search_or_option_to_iface,
    store_dns_search_or_options_to_auto_iface, store_dns_search_or_options_to_ip_enabled_iface,
};
use nmstate::nm::dns_store::{
    _save_dns_to_iface, purge_dns_config, save_dns_to_iface, set_iface_dns_conf,
    store_dns_config_to_iface,
};
use nmstate::{
    BaseInterface, DnsClientState, DnsState, ErrorKind, InterfaceIpAddr, InterfaceIpv4,
    InterfaceIpv6, InterfaceState, InterfaceType, MergedDnsState, MergedInterface,
    MergedInterfaces, MergedNetworkState, NmActiveConnection, NmDevice, NmDeviceState,
};

fn strs(v: &[&str]) -> Vec<String> {
    v.iter().map(|s| s.to_string()).collect()
}

fn dns_state(server: Option<&[&str]>, search: Option<&[&str]>, options: Option<&[&str]>) -> DnsState {
    DnsState {
        running: None,
        config: Some(DnsClientState {
            server: server.map(strs),
            search: search.map(strs),
            options: options.map(strs),
            priority: None,
        }),
    }
}

fn static_v4(addr: &str) -> InterfaceIpv4 {
    let mut ip = InterfaceIpv4::new();
    ip.enabled = true;
    ip.dhcp = Some(false);
    ip.addresses = Some(vec![InterfaceIpAddr::try_from(addr).unwrap()]);
    ip
}

fn static_v6(addr: &str) -> InterfaceIpv6 {
    let mut ip = InterfaceIpv6::new();
    ip.enabled = true;
    ip.dhcp = Some(false);
    ip.autoconf = Some(false);
    ip.addresses = Some(vec![InterfaceIpAddr::try_from(addr).unwrap()]);
    ip
}

fn auto_v4() -> InterfaceIpv4 {
    let mut ip = InterfaceIpv4::new();
    ip.enabled = true;
    ip.dhcp = Some(true);
    ip
}

fn auto_v6() -> InterfaceIpv6 {
    let mut ip = InterfaceIpv6::new();
    ip.enabled = true;
    ip.autoconf = Some(true);
    ip
}

fn iface(name: &str, v4: Option<InterfaceIpv4>, v6: Option<InterfaceIpv6>) -> BaseInterface {
    let mut b = BaseInterface::new(name.to_string(), InterfaceType::Ethernet);
    b.ipv4 = v4;
    b.ipv6 = v6;
    b
}

fn desired(b: BaseInterface) -> MergedInterface {
    MergedInterface::new(Some(b), None).unwrap()
}

fn unchanged(b: BaseInterface) -> MergedInterface {
    MergedInterface {
        desired: None,
        current: Some(b.clone()),
        merged: b,
        for_apply: None,
        for_verify: None,
    }
}

fn with_dns_v4(mut ip: InterfaceIpv4, servers: &[&str]) -> InterfaceIpv4 {
    ip.dns = Some(DnsClientState {
        server: Some(strs(servers)),
        search: Some(vec![]),
        options: Some(vec![]),
        priority: Some(40),
    });
    ip
}

fn state(ifaces: Vec<MergedInterface>, servers: &[&str], searches: &[&str], options: &[&str]) -> MergedNetworkState {
    let mut interfaces = MergedInterfaces::new();
    for i in ifaces {
        assert!(interfaces.push(i));
    }
    MergedNetworkState {
        interfaces,
        dns: MergedDnsState {
            servers: strs(servers),
            searches: strs(searches),
            options: strs(options),
            changed: true,
        },
    }
}

fn apply_dns(state: &MergedNetworkState, name: &str, v6: bool) -> Option<DnsClientState> {
    let k = state.interfaces.find(name).unwrap();
    let a = state.interfaces.kernel_ifaces[k].for_apply.as_ref()?;
    if v6 {
        a.ipv6.as_ref()?.dns.clone()
    } else {
        a.ipv4.as_ref()?.dns.clone()
    }
}

fn conf(servers: &[&str], searches: &[&str], options: &[&str], priority: Option<i32>) -> DnsClientState {
    DnsClientState {
        server: Some(strs(servers)),
        search: Some(strs(searches)),
        options: Some(strs(options)),
        priority,
    }
}

#[test]
fn test_dns_verify_uncompressed_srvs() {
    let current = dns_state(
        Some(&[
            "3000::",
            "::100",
            "0:0:f::100",
            "3001:db8:0:1:1:1:1:1",
            "3001:db8::2:1",
            "3001:db8::1",
            "3002:0:0:1::1",
            "3003:db8::1:0:0:1",
            "3004:db8::1:0:0:1",
            "3005:db8::1:0:0:1",
            "::ffff:192.0.2.1",
            "::ffff:192.0.2.2",
            "3::4",
        ]),
        None,
        None,
    );
    let desired = dns_state(
        Some(&[
            "3000:0000:0000:0000:0000:0000:0000:0000",
            "0000:0000:0000:0000:0000:0000:0000:0100",
            "0000:0000:000F:0000:0000:0000:0000:0100",
            "3001:db8::1:1:1:1:1",
            "3001:db8:0:0:0:0:2:1",
            "3001:db8::0:1",
            "3002:0:0:1:0:0:0:1",
            "3003:dB8:0:0:1:0:0:1",
            "3004:db8::1:0:0:1",
            "3005:DB8:0:0:1::1",
            "0:0:0:0:0:FFFF:192.0.2.1",
            "::FFFF:192.0.2.2",
            "03:0000:000:00:0::4",
        ]),
        None,
        None,
    );

    let merged = MergedDnsState::new(desired, DnsState::new());

    merged.verify(&current).unwrap();
}

#[test]
fn test_is_purge_dns_empty_dict() {
    let desired = DnsState {
        running: None,
        config: Some(DnsClientState::new()),
    };
    assert!(desired.config.unwrap().is_purge());
}

#[test]
fn test_is_purge_dns_full_empty_dict() {
    let desired = dns_state(Some(&[]), Some(&[]), Some(&[]));
    assert!(desired.config.unwrap().is_purge());
}

#[test]
fn test_not_purge() {
    let desired = dns_state(None, Some(&[]), None);
    assert!(!desired.config.unwrap().is_purge());
}

#[test]
fn test_dns_client_state_is_null() {
    assert!(DnsClientState::new().is_null());
    assert!(conf(&[], &[], &[], Some(40)).is_null());
    assert!(dns_state(None, Some(&[]), None).config.unwrap().is_null());
    assert!(!conf(&["192.0.2.1"], &[], &[], None).is_null());
    assert!(!conf(&[], &["example.com"], &[], None).is_null());
    assert!(!conf(&[], &[], &["rotate"], None).is_null());
    assert!(!conf(&["192.0.2.1"], &[], &[], None).is_purge());
}

#[test]
fn test_dns_verify_fails_on_difference() {
    let merged = MergedDnsState::new(
        dns_state(Some(&["192.0.2.1", "2001:db8::1"]), Some(&["example.com"]), None),
        DnsState::new(),
    );
    assert!(merged.is_changed());
    assert!(merged
        .verify(&dns_state(Some(&["192.0.2.1", "2001:DB8:0::1"]), Some(&["example.com"]), None))
        .is_ok());
    let e = merged
        .verify(&dns_state(Some(&["2001:db8::1", "192.0.2.1"]), Some(&["example.com"]), None))
        .unwrap_err();
    assert_eq!(e.kind(), ErrorKind::VerificationError);
    let e = merged
        .verify(&dns_state(Some(&["192.0.2.1", "2001:db8::1"]), Some(&["example.org"]), None))
        .unwrap_err();
    assert_eq!(e.kind(), ErrorKind::VerificationError);
    let e = merged
        .verify(&dns_state(
            Some(&["192.0.2.1", "2001:db8::1"]),
            Some(&["example.com"]),
            Some(&["rotate"]),
        ))
        .unwrap_err();
    assert_eq!(e.kind(), ErrorKind::VerificationError);
    assert_eq!(merged.verify(&DnsState::new()).unwrap_err().kind(), ErrorKind::VerificationError);
}

#[test]
fn test_merged_dns_state() {
    let current = dns_state(Some(&["192.0.2.1"]), Some(&["example.com"]), Some(&["rotate"]));
    let same = MergedDnsState::new(DnsState::new(), dns_state(Some(&["192.0.2.1"]), Some(&["example.com"]), Some(&["rotate"])));
    assert!(!same.is_changed());
    assert_eq!(same.servers, strs(&["192.0.2.1"]));
    assert_eq!(same.searches, strs(&["example.com"]));
    assert_eq!(same.options, strs(&["rotate"]));

    let purge = MergedDnsState::new(
        DnsState { running: None, config: Some(DnsClientState::new()) },
        dns_state(Some(&["192.0.2.1"]), Some(&["example.com"]), Some(&["rotate"])),
    );
    assert!(purge.is_changed());
    assert!(purge.servers.is_empty());
    assert!(purge.searches.is_empty());
    assert!(purge.options.is_empty());

    let over = MergedDnsState::new(dns_state(Some(&["2001:db8::1"]), None, None), current);
    assert!(over.is_changed());
    assert_eq!(over.servers, strs(&["2001:db8::1"]));
    assert_eq!(over.searches, strs(&["example.com"]));
    assert_eq!(over.options, strs(&["rotate"]));
}

#[test]
fn test_canonical_dns_server() {
    assert_eq!(canonical_dns_server("0:0:0:0:0:FFFF:192.0.2.1"), "::ffff:192.0.2.1");
    assert_eq!(canonical_dns_server("192.0.2.1"), "192.0.2.1");
    assert_eq!(canonical_dns_server("FE80:0::1%eth1"), "fe80::1%eth1");
    assert_eq!(canonical_dns_server("dns.example.com"), "dns.example.com");
    assert_eq!(canonical_dns_server("x%eth1"), "x%eth1");
}

#[test]
fn test_is_ipv6_addr() {
    assert!(is_ipv6_addr("2001:db8::1"));
    assert!(is_ipv6_addr("fe80::1%eth1"));
    assert!(is_ipv6_addr(":"));
    assert!(!is_ipv6_addr("192.0.2.1"));
    assert!(!is_ipv6_addr(""));
}

#[test]
fn test_parse_dns_ipv6_link_local_srv() {
    let (ip, name) = parse_dns_ipv6_link_local_srv("fe80::1%eth3").unwrap().unwrap();
    assert_eq!(ip, 0xfe80_0000_0000_0000_0000_0000_0000_0001);
    assert_eq!(name, "eth3");
    assert_eq!(parse_dns_ipv6_link_local_srv("fe80::1").unwrap(), None);
    assert_eq!(parse_dns_ipv6_link_local_srv("192.0.2.1").unwrap(), None);
    assert_eq!(parse_dns_ipv6_link_local_srv("fe80::1%eth3%x").unwrap(), None);
    let (ip, name) = parse_dns_ipv6_link_local_srv("fe80::1%").unwrap().unwrap();
    assert_eq!(ip, 0xfe80_0000_0000_0000_0000_0000_0000_0001);
    assert_eq!(name, "");
    assert_eq!(
        parse_dns_ipv6_link_local_srv("192.0.2.1%eth3").unwrap_err().kind(),
        ErrorKind::InvalidArgument
    );
}

#[test]
fn test_is_mixed_dns_servers() {
    let v4 = "192.0.2.1";
    let v6 = "2001:db8::1";
    assert!(!is_mixed_dns_servers(&strs(&[])));
    assert!(!is_mixed_dns_servers(&strs(&[v4])));
    assert!(!is_mixed_dns_servers(&strs(&[v4, v6])));
    assert!(!is_mixed_dns_servers(&strs(&[v6, v4])));
    assert!(!is_mixed_dns_servers(&strs(&[v4, v4, v6, v6])));
    assert!(!is_mixed_dns_servers(&strs(&[v6, v6, v6, v4])));
    assert!(is_mixed_dns_servers(&strs(&[v4, v6, v4])));
    assert!(is_mixed_dns_servers(&strs(&[v6, v4, v6])));
    assert!(is_mixed_dns_servers(&strs(&[v6, v6, v4, v4, v6])));
    assert!(is_mixed_dns_servers(&strs(&[v4, v6, v4, v6])));
}

#[test]
fn test_mixed_dns_servers_are_refused() {
    let mut s = state(
        vec![desired(iface("eth1", Some(static_v4("192.0.2.9/24")), Some(static_v6("2001:db8::9/64"))))],
        &["192.0.2.1", "2001:db8::1", "192.0.2.2"],
        &[],
        &[],
    );
    let e = store_dns_config_to_iface(&mut s, &vec![], &vec![]).unwrap_err();
    assert_eq!(e.kind(), ErrorKind::NotImplementedError);
    assert_eq!(apply_dns(&s, "eth1", false), None);
}

#[test]
fn test_dns_split_and_priority() {
    let mut s = state(
        vec![
            desired(iface("eth1", Some(static_v4("192.0.2.9/24")), None)),
            desired(iface("eth2", None, Some(static_v6("2001:db8::9/64")))),
        ],
        &["2001:db8::1", "192.0.2.53"],
        &["example.com", "example.org"],
        &["rotate"],
    );
    store_dns_config_to_iface(&mut s, &vec![], &vec![]).unwrap();
    assert_eq!(
        apply_dns(&s, "eth2", true),
        Some(conf(&["2001:db8::1"], &["example.com", "example.org"], &["rotate"], Some(40)))
    );
    assert_eq!(apply_dns(&s, "eth1", false), Some(conf(&["192.0.2.53"], &[], &[], Some(50))));
    assert_eq!(apply_dns(&s, "eth1", true), None);
    assert_eq!(apply_dns(&s, "eth2", false), None);
}

#[test]
fn test_dns_prefers_family_of_first_server() {
    let mut s = state(
        vec![desired(iface("eth1", Some(static_v4("192.0.2.9/24")), Some(static_v6("2001:db8::9/64"))))],
        &["192.0.2.53", "192.0.2.54", "2001:db8::1"],
        &["example.com"],
        &[],
    );
    store_dns_config_to_iface(&mut s, &vec![], &vec![]).unwrap();
    assert_eq!(
        apply_dns(&s, "eth1", false),
        Some(conf(&["192.0.2.53", "192.0.2.54"], &["example.com"], &[], Some(40)))
    );
    assert_eq!(apply_dns(&s, "eth1", true), Some(conf(&["2001:db8::1"], &[], &[], Some(50))));
}

#[test]
fn test_ipv6_zone_selects_holder() {
    let mut s = state(
        vec![
            desired(iface("eth1", Some(static_v4("192.0.2.9/24")), Some(static_v6("2001:db8::9/64")))),
            desired(iface("eth3", None, Some(auto_v6()))),
        ],
        &["fe80::1%eth3"],
        &[],
        &[],
    );
    assert_eq!(
        extract_ipv6_link_local_iface_from_dns_srv(&s.dns.servers),
        Some("eth3".to_string())
    );
    store_dns_config_to_iface(&mut s, &vec![], &vec![]).unwrap();
    assert_eq!(apply_dns(&s, "eth3", true), Some(conf(&["fe80::1"], &[], &[], Some(40))));
    assert_eq!(apply_dns(&s, "eth1", true), None);
}

#[test]
fn test_extract_ipv6_link_local_iface() {
    assert_eq!(extract_ipv6_link_local_iface_from_dns_srv(&strs(&[])), None);
    assert_eq!(
        extract_ipv6_link_local_iface_from_dns_srv(&strs(&["192.0.2.1", "2001:db8::1"])),
        None
    );
    assert_eq!(extract_ipv6_link_local_iface_from_dns_srv(&strs(&["fe80::1%"])), None);
    assert_eq!(extract_ipv6_link_local_iface_from_dns_srv(&strs(&["fe80::1%a%b"])), None);
    assert_eq!(
        extract_ipv6_link_local_iface_from_dns_srv(&strs(&["192.0.2.1", "fe80::1%eth5", "fe80::1%eth6"])),
        Some("eth5".to_string())
    );
}

#[test]
fn test_find_dns_iface_order() {
    let mut sticky = unchanged(iface("eth9", Some(with_dns_v4(static_v4("192.0.2.9/24"), &["192.0.2.1"])), None));
    sticky.mark_as_changed();
    let mut ifaces = MergedInterfaces::new();
    assert!(ifaces.push(desired(iface("eth2", Some(auto_v4()), None))));
    assert!(ifaces.push(desired(iface("eth1", Some(static_v4("192.0.2.8/24")), None))));
    assert!(ifaces.push(sticky));
    let (cur4, cur6) = get_cur_dns_ifaces(&ifaces);
    assert_eq!(cur4, strs(&["eth9"]));
    assert!(cur6.is_empty());
    assert_eq!(
        find_dns_iface(false, &ifaces, &cur4, &vec![], &vec![]),
        Some("eth9".to_string())
    );
    assert_eq!(
        find_dns_iface(false, &ifaces, &vec![], &vec![], &vec![]),
        Some("eth1".to_string())
    );
    assert_eq!(find_dns_iface(true, &ifaces, &cur6, &vec![], &vec![]), None);

    let mut only_auto = MergedInterfaces::new();
    assert!(only_auto.push(desired(iface("eth2", Some(auto_v4()), None))));
    assert!(only_auto.push(unchanged(iface("eth0", Some(static_v4("192.0.2.8/24")), None))));
    assert_eq!(
        find_dns_iface(false, &only_auto, &vec![], &vec![], &vec![]),
        Some("eth2".to_string())
    );
}

#[test]
fn test_find_dns_iface_skips_loopback_and_userspace() {
    let mut lo = iface("lo", Some(static_v4("127.0.0.1/8")), None);
    lo.iface_type = InterfaceType::Loopback;
    let mut br = iface("br0", Some(static_v4("192.0.2.1/24")), None);
    br.iface_type = InterfaceType::OvsBridge;
    let mut ifaces = MergedInterfaces::new();
    assert!(ifaces.push(desired(lo)));
    assert!(ifaces.push(desired(br)));
    assert_eq!(find_dns_iface(false, &ifaces, &vec![], &vec![], &vec![]), None);
    assert!(ifaces.push(desired(iface("eth1", Some(static_v4("192.0.2.2/24")), None))));
    assert_eq!(
        find_dns_iface(false, &ifaces, &vec![], &vec![], &vec![]),
        Some("eth1".to_string())
    );
}

#[test]
fn test_find_dns_iface_among_current_takes_least_name() {
    let mut ifaces = MergedInterfaces::new();
    assert!(ifaces.push(unchanged(iface("eth2", Some(static_v4("192.0.2.2/24")), None))));
    assert!(ifaces.push(unchanged(iface("eth10", Some(static_v4("192.0.2.10/24")), None))));
    assert!(ifaces.push(unchanged(iface("eth1", Some(static_v4("192.0.2.1/24")), None))));
    assert!(ifaces.push(unchanged(iface("eth0", None, Some(static_v6("2001:db8::1/64"))))));
    assert_eq!(
        find_dns_iface(false, &ifaces, &vec![], &vec![], &vec![]),
        Some("eth1".to_string())
    );
    let acs = vec![NmActiveConnection {
        iface_name: "eth1".to_string(),
        iface_type: "802-3-ethernet".to_string(),
        state_flags: 0x80 | 0x4,
    }];
    assert_eq!(
        find_dns_iface(false, &ifaces, &vec![], &acs, &vec![]),
        Some("eth10".to_string())
    );
    let devs = vec![NmDevice {
        name: "eth10".to_string(),
        iface_type: "802-3-ethernet".to_string(),
        state: NmDeviceState::Unmanaged,
    }];
    assert_eq!(
        find_dns_iface(false, &ifaces, &vec![], &acs, &devs),
        Some("eth2".to_string())
    );
    assert_eq!(
        find_dns_iface(true, &ifaces, &vec![], &acs, &devs),
        Some("eth0".to_string())
    );
}

#[test]
fn test_dns_holder_is_the_same_on_every_run() {
    let build = || {
        let mut ifaces = MergedInterfaces::new();
        assert!(ifaces.push(desired(iface("eth5", Some(auto_v4()), None))));
        assert!(ifaces.push(desired(iface("eth4", Some(static_v4("192.0.2.4/24")), None))));
        assert!(ifaces.push(desired(iface("eth3", Some(static_v4("192.0.2.3/24")), None))));
        ifaces
    };
    let first = find_dns_iface(false, &build(), &vec![], &vec![], &vec![]);
    for _ in 0..5 {
        assert_eq!(find_dns_iface(false, &build(), &vec![], &vec![], &vec![]), first);
    }
    assert_eq!(first, Some("eth4".to_string()));
}

#[test]
fn test_is_external_managed_and_unmanaged() {
    let acs = vec![
        NmActiveConnection {
            iface_name: "eth1".to_string(),
            iface_type: "802-3-ethernet".to_string(),
            state_flags: 0x80,
        },
        NmActiveConnection {
            iface_name: "eth2".to_string(),
            iface_type: "802-3-ethernet".to_string(),
            state_flags: 0x7f,
        },
        NmActiveConnection {
            iface_name: "wg0".to_string(),
            iface_type: "wireguard".to_string(),
            state_flags: 0x80,
        },
    ];
    assert!(is_external_managed("eth1", &acs));
    assert!(!is_external_managed("eth2", &acs));
    assert!(!is_external_managed("wg0", &acs));
    assert!(!is_external_managed("eth3", &acs));
    let devs = vec![
        NmDevice { name: "eth1".to_string(), iface_type: "bond".to_string(), state: NmDeviceState::Unmanaged },
        NmDevice { name: "eth2".to_string(), iface_type: "bond".to_string(), state: NmDeviceState::Activated },
        NmDevice { name: "wg0".to_string(), iface_type: "wireguard".to_string(), state: NmDeviceState::Unmanaged },
    ];
    assert!(is_unmanaged("eth1", &devs));
    assert!(!is_unmanaged("eth2", &devs));
    assert!(!is_unmanaged("wg0", &devs));
    assert!(!is_unmanaged("eth9", &devs));
}

#[test]
fn test_for_dns_validity_and_preference() {
    let static_if = desired(iface("eth1", Some(static_v4("192.0.2.1/24")), None));
    assert!(static_if.is_iface_valid_for_dns(false));
    assert!(static_if.is_iface_prefered_for_dns(false));
    assert!(!static_if.is_iface_valid_for_dns(true));
    assert!(!static_if.is_iface_prefered_for_dns(true));

    let auto_if = desired(iface("eth2", Some(auto_v4()), Some(auto_v6())));
    assert!(auto_if.is_iface_valid_for_dns(false));
    assert!(!auto_if.is_iface_prefered_for_dns(false));
    assert!(auto_if.is_iface_valid_for_dns(true));

    let mut manual_dns = auto_v6();
    manual_dns.auto_dns = Some(false);
    let auto_if = desired(iface("eth3", None, Some(manual_dns)));
    assert!(auto_if.is_iface_prefered_for_dns(true));

    let mut empty = InterfaceIpv6::new();
    empty.enabled = true;
    empty.addresses = Some(vec![]);
    let empty_if = desired(iface("eth4", None, Some(empty)));
    assert!(!empty_if.is_iface_valid_for_dns(true));
    assert!(!empty_if.is_iface_prefered_for_dns(true));

    let idle = unchanged(iface("eth5", Some(static_v4("192.0.2.1/24")), None));
    assert!(idle.is_iface_valid_for_dns(false));
    assert!(!idle.is_iface_prefered_for_dns(false));
}

#[test]
fn test_cur_dns_ifaces_and_validity() {
    let holder = iface("eth1", Some(with_dns_v4(static_v4("192.0.2.9/24"), &["192.0.2.1"])), None);
    let mut off = InterfaceIpv4::new();
    off.prop_list = vec![nmstate::IpProp::Enabled];
    let mut going_off = MergedInterface::new(Some(iface("eth1", Some(off), None)), Some(holder.clone())).unwrap();
    going_off.merged.ipv4.as_mut().unwrap().enabled = false;
    let mut ifaces = MergedInterfaces::new();
    assert!(ifaces.push(going_off));
    let mut null_dns = static_v4("192.0.2.7/24");
    null_dns.dns = Some(conf(&[], &[], &[], None));
    assert!(ifaces.push(unchanged(iface("eth2", Some(null_dns), None))));
    let (cur4, cur6) = get_cur_dns_ifaces(&ifaces);
    assert_eq!(cur4, strs(&["eth1"]));
    assert!(cur6.is_empty());
    assert!(!cur_dns_ifaces_still_valid_for_dns(&ifaces));

    let mut fine = MergedInterfaces::new();
    assert!(fine.push(unchanged(holder)));
    assert!(cur_dns_ifaces_still_valid_for_dns(&fine));
}

#[test]
fn test_reselect_dns_ifaces() {
    let s = state(
        vec![
            desired(iface("eth1", Some(static_v4("192.0.2.9/24")), None)),
            desired(iface("eth2", None, Some(static_v6("2001:db8::9/64")))),
        ],
        &["192.0.2.1"],
        &[],
        &[],
    );
    assert_eq!(
        reselect_dns_ifaces(&s, &vec![], &vec![], &vec![], &vec![]),
        ("eth1".to_string(), "eth2".to_string())
    );
    let none = state(vec![], &["fe80::1%eth7"], &[], &[]);
    assert_eq!(
        reselect_dns_ifaces(&none, &vec![], &vec![], &vec![], &vec![]),
        ("".to_string(), "eth7".to_string())
    );
}

#[test]
fn test_no_holder_is_an_invalid_argument() {
    let mut s = state(
        vec![desired(iface("eth1", Some(static_v4("192.0.2.9/24")), None))],
        &["2001:db8::1"],
        &[],
        &[],
    );
    let e = store_dns_config_to_iface(&mut s, &vec![], &vec![]).unwrap_err();
    assert_eq!(e.kind(), ErrorKind::InvalidArgument);
}

#[test]
fn test_save_to_unknown_holder_is_a_bug() {
    let mut s = state(vec![], &["192.0.2.1"], &[], &[]);
    let e = _save_dns_to_iface(false, "eth1", strs(&["192.0.2.1"]), &mut s, true).unwrap_err();
    assert_eq!(e.kind(), ErrorKind::Bug);
    let e = _save_dns_to_iface(false, "", strs(&["192.0.2.1"]), &mut s, true).unwrap_err();
    assert_eq!(e.kind(), ErrorKind::InvalidArgument);
    let e = save_dns_to_iface("eth1", "", &mut s).unwrap_err();
    assert_eq!(e.kind(), ErrorKind::Bug);
    let e = _save_dns_to_iface(true, "eth1", strs(&["zzz%eth1"]), &mut s, true).unwrap_err();
    assert_eq!(e.kind(), ErrorKind::InvalidArgument);
}

#[test]
fn test_save_on_interface_without_stack_is_a_bug() {
    let mut s = state(
        vec![desired(iface("eth1", Some(static_v4("192.0.2.9/24")), None))],
        &["2001:db8::1"],
        &[],
        &[],
    );
    let e = _save_dns_to_iface(true, "eth1", strs(&["2001:db8::1"]), &mut s, true).unwrap_err();
    assert_eq!(e.kind(), ErrorKind::Bug);
}

#[test]
fn test_set_iface_dns_conf() {
    let mut b = iface("eth1", Some(static_v4("192.0.2.9/24")), None);
    set_iface_dns_conf(false, &mut b, strs(&["192.0.2.1"]), strs(&["a"]), strs(&["b"]), Some(3)).unwrap();
    assert_eq!(b.ipv4.as_ref().unwrap().dns, Some(conf(&["192.0.2.1"], &["a"], &["b"], Some(3))));
    let e = set_iface_dns_conf(true, &mut b, strs(&["2001:db8::1"]), vec![], vec![], None).unwrap_err();
    assert_eq!(e.kind(), ErrorKind::Bug);
    assert!(set_iface_dns_conf(true, &mut b, vec![], vec![], vec![], None).is_ok());
    assert_eq!(b.ipv6, None);
}

#[test]
fn test_purge_clears_previous_holder() {
    let holder = iface("eth1", Some(with_dns_v4(static_v4("192.0.2.9/24"), &["192.0.2.1"])), None);
    let mut gone = iface("eth0", Some(with_dns_v4(static_v4("192.0.2.8/24"), &["192.0.2.1"])), None);
    gone.state = InterfaceState::Absent;
    let mut s = state(
        vec![
            unchanged(holder),
            unchanged(gone),
            desired(iface("eth2", Some(static_v4("192.0.2.10/24")), None)),
        ],
        &["192.0.2.53"],
        &[],
        &[],
    );
    purge_dns_config(false, &strs(&["eth1", "eth0", "nope"]), &mut s).unwrap();
    let k = s.interfaces.find("eth1").unwrap();
    assert!(s.interfaces.kernel_ifaces[k].is_changed());
    assert_eq!(apply_dns(&s, "eth1", false), Some(conf(&[], &[], &[], None)));
    let k0 = s.interfaces.find("eth0").unwrap();
    assert!(!s.interfaces.kernel_ifaces[k0].is_changed());
    assert_eq!(apply_dns(&s, "eth2", false), None);
}

#[test]
fn test_store_moves_dns_to_desired_interface() {
    let holder = iface("eth1", Some(with_dns_v4(static_v4("192.0.2.9/24"), &["192.0.2.1"])), None);
    let mut s = state(
        vec![
            unchanged(holder),
            desired(iface("eth2", Some(static_v4("192.0.2.10/24")), None)),
        ],
        &["192.0.2.53"],
        &["example.com"],
        &[],
    );
    store_dns_config_to_iface(&mut s, &vec![], &vec![]).unwrap();
    assert_eq!(apply_dns(&s, "eth1", false), Some(conf(&[], &[], &[], None)));
    assert_eq!(
        apply_dns(&s, "eth2", false),
        Some(conf(&["192.0.2.53"], &["example.com"], &[], Some(40)))
    );
}

#[test]
fn test_store_does_nothing_when_unchanged() {
    let holder = iface("eth1", Some(with_dns_v4(static_v4("192.0.2.9/24"), &["192.0.2.1"])), None);
    let mut s = state(vec![unchanged(holder)], &["192.0.2.53"], &[], &[]);
    s.dns.changed = false;
    store_dns_config_to_iface(&mut s, &vec![], &vec![]).unwrap();
    let k = s.interfaces.find("eth1").unwrap();
    assert!(!s.interfaces.kernel_ifaces[k].is_changed());
}

#[test]
fn test_search_only_goes_to_auto_interface() {
    let mut s = state(
        vec![
            desired(iface("eth1", Some(static_v4("192.0.2.9/24")), None)),
            desired(iface("eth2", Some(auto_v4()), Some(auto_v6()))),
        ],
        &[],
        &["example.com"],
        &["rotate"],
    );
    store_dns_search_or_option_to_iface(&mut s, &vec![], &vec![]).unwrap();
    assert_eq!(apply_dns(&s, "eth2", true), Some(conf(&[], &["example.com"], &["rotate"], Some(40))));
    assert_eq!(apply_dns(&s, "eth2", false), None);
    assert_eq!(apply_dns(&s, "eth1", false), None);
}

#[test]
fn test_search_only_falls_back_to_enabled_interface() {
    let mut s = state(
        vec![
            unchanged(iface("eth3", Some(static_v4("192.0.2.3/24")), None)),
            unchanged(iface("eth1", Some(static_v4("192.0.2.1/24")), None)),
        ],
        &[],
        &["example.com"],
        &[],
    );
    assert_eq!(
        store_dns_search_or_options_to_auto_iface(&mut s, &vec![], &vec![]).unwrap_err().kind(),
        ErrorKind::InvalidArgument
    );
    store_dns_search_or_option_to_iface(&mut s, &vec![], &vec![]).unwrap();
    assert_eq!(apply_dns(&s, "eth1", false), Some(conf(&[], &["example.com"], &[], Some(40))));
    let k = s.interfaces.find("eth3").unwrap();
    assert!(!s.interfaces.kernel_ifaces[k].is_changed());
}

#[test]
fn test_search_only_keeps_current_holder() {
    let mut holder = unchanged(iface("eth1", Some(with_dns_v4(static_v4("192.0.2.9/24"), &["192.0.2.1"])), None));
    holder.for_apply = Some(iface("eth1", Some(static_v4("192.0.2.9/24")), None));
    let mut s = state(
        vec![desired(iface("eth2", Some(auto_v4()), None)), holder],
        &[],
        &["example.com"],
        &[],
    );
    store_dns_search_or_option_to_iface(&mut s, &vec![], &vec![]).unwrap();
    assert_eq!(apply_dns(&s, "eth1", false), Some(conf(&[], &["example.com"], &[], Some(40))));
    assert_eq!(apply_dns(&s, "eth2", false), None);
}

#[test]
fn test_search_only_without_interface_fails() {
    let mut s = state(vec![], &[], &["example.com"], &[]);
    assert_eq!(
        store_dns_search_or_options_to_ip_enabled_iface(&mut s, &vec![], &vec![]).unwrap_err().kind(),
        ErrorKind::InvalidArgument
    );
    assert_eq!(
        store_dns_search_or_option_to_iface(&mut s, &vec![], &vec![]).unwrap_err().kind(),
        ErrorKind::InvalidArgument
    );
}

#[test]
fn test_set_iface_dns_search_or_option() {
    let mut m = unchanged(iface("eth1", None, Some(auto_v6())));
    set_iface_dns_search_or_option(&mut m, strs(&["example.com"]), strs(&["rotate"]), true).unwrap();
    assert!(m.is_changed());
    let a = m.for_apply.as_ref().unwrap();
    assert_eq!(a.name, "eth1");
    assert_eq!(
        a.ipv6.as_ref().unwrap().dns,
        Some(conf(&[], &["example.com"], &["rotate"], Some(40)))
    );
    assert!(a.ipv6.as_ref().unwrap().is_auto());
}
