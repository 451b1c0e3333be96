use nmstate::ifaces::base::validate_wait_ip;
use nmstate::ip::address::is_none_or_empty_mptcp_flags;
use nmstate::ip::stack::default_allow_extra_address;
use nmstate::nispor::set_controller_type;
use nmstate::{
    BaseInterface, ErrorKind, InterfaceIpAddr, InterfaceIpv4, InterfaceIpv6, InterfaceState,
    InterfaceType, Interfaces, IpProp, MergedInterface, MergedInterfaces, MptcpAddressFlag,
    WaitIp,
};

fn addr(text: &str) -> InterfaceIpAddr {
    InterfaceIpAddr::try_from(text).unwrap()
}

fn iface(name: &str, kind: InterfaceType) -> BaseInterface {
    BaseInterface::new(name.to_string(), kind)
}

fn enabled_v4() -> InterfaceIpv4 {
    let mut ip = InterfaceIpv4::new();
    ip.enabled = true;
    ip.prop_list = vec![IpProp::Enabled];
    ip
}

fn enabled_v6() -> InterfaceIpv6 {
    let mut ip = InterfaceIpv6::new();
    ip.enabled = true;
    ip.prop_list = vec![IpProp::Enabled];
    ip
}

#[test]
fn test_small_helpers() {
    assert!(default_allow_extra_address());
    assert!(is_none_or_empty_mptcp_flags(&None));
    assert!(is_none_or_empty_mptcp_flags(&Some(vec![])));
    assert!(!is_none_or_empty_mptcp_flags(&Some(vec![MptcpAddressFlag::Subflow])));
}

#[test]
fn test_interface_kinds() {
    assert!(InterfaceType::OvsBridge.is_userspace());
    assert!(InterfaceType::OvsPort.is_userspace());
    assert!(!InterfaceType::OvsInterface.is_userspace());
    assert!(!InterfaceType::Ethernet.is_userspace());
    assert!(InterfaceType::Bond.is_controller());
    assert!(InterfaceType::LinuxBridge.is_controller());
    assert!(InterfaceType::Vrf.is_controller());
    assert!(!InterfaceType::Vlan.is_controller());
    assert!(iface("eth1", InterfaceType::Ethernet).can_have_ip());
    assert!(!iface("br0", InterfaceType::OvsBridge).can_have_ip());
    let mut gone = iface("eth1", InterfaceType::Ethernet);
    assert!(!gone.is_absent());
    gone.state = InterfaceState::Absent;
    assert!(gone.is_absent());
    let mut full = iface("eth1", InterfaceType::Veth);
    full.ipv4 = Some(enabled_v4());
    full.controller = Some("br0".to_string());
    full.state = InterfaceState::Down;
    let bare = full.clone_name_type_only();
    assert_eq!(bare, iface("eth1", InterfaceType::Veth));
    assert_eq!(bare.state, InterfaceState::Up);
}

#[test]
fn test_validate_wait_ip() {
    let mut b = iface("eth1", InterfaceType::Ethernet);
    assert!(validate_wait_ip(&b).is_ok());
    b.wait_ip = Some(WaitIp::Any);
    assert!(validate_wait_ip(&b).is_ok());
    for w in [WaitIp::Ipv4, WaitIp::Ipv6, WaitIp::Ipv4AndIpv6] {
        b.wait_ip = Some(w);
        assert_eq!(validate_wait_ip(&b).unwrap_err().kind(), ErrorKind::InvalidArgument);
    }
    b.ipv4 = Some(enabled_v4());
    b.wait_ip = Some(WaitIp::Ipv4);
    assert!(validate_wait_ip(&b).is_ok());
    b.wait_ip = Some(WaitIp::Ipv6);
    assert!(validate_wait_ip(&b).is_err());
    b.wait_ip = Some(WaitIp::Ipv4AndIpv6);
    assert!(validate_wait_ip(&b).is_err());
    b.ipv6 = Some(InterfaceIpv6::new());
    assert!(validate_wait_ip(&b).is_err());
    b.ipv6 = Some(enabled_v6());
    assert!(validate_wait_ip(&b).is_ok());
    b.ipv4 = Some(InterfaceIpv4::new());
    assert!(validate_wait_ip(&b).is_err());
    b.wait_ip = Some(WaitIp::Ipv6);
    assert!(validate_wait_ip(&b).is_ok());
}

#[test]
fn test_merged_interface_needs_one_side() {
    assert_eq!(MergedInterface::new(None, None).unwrap_err().kind(), ErrorKind::Bug);
}

#[test]
fn test_merged_interface_desired_only() {
    let mut d = iface("eth1", InterfaceType::Ethernet);
    d.ipv4 = Some(enabled_v4());
    let m = MergedInterface::new(Some(d.clone()), None).unwrap();
    assert!(m.is_changed());
    assert!(m.is_desired());
    assert_eq!(m.desired, Some(d.clone()));
    assert_eq!(m.current, None);
    assert_eq!(m.for_apply, Some(d.clone()));
    assert_eq!(m.for_verify, Some(d.clone()));
    assert_eq!(m.merged, d);
}

#[test]
fn test_merged_interface_current_only() {
    let mut c = iface("eth1", InterfaceType::Ethernet);
    c.ipv4 = Some(enabled_v4());
    let m = MergedInterface::new(None, Some(c.clone())).unwrap();
    assert!(m.is_changed());
    assert!(!m.is_desired());
    assert_eq!(m.for_apply, Some(c.clone()));
    assert_eq!(m.for_verify, Some(c.clone()));
    assert_eq!(m.merged, c);
}

#[test]
fn test_merged_interface_merges_ip_with_current() {
    let mut c = iface("eth1", InterfaceType::Ethernet);
    let mut cur4 = InterfaceIpv4::new();
    cur4.enabled = true;
    cur4.dhcp = Some(true);
    let mut a = addr("192.0.2.5/24");
    a.valid_life_time = Some("3600sec".to_string());
    cur4.addresses = Some(vec![a]);
    c.ipv4 = Some(cur4);
    c.ipv6 = Some(enabled_v6());

    let mut d = iface("eth1", InterfaceType::Ethernet);
    let mut des4 = InterfaceIpv4::new();
    des4.dhcp = Some(false);
    des4.prop_list = vec![IpProp::Dhcp];
    d.ipv4 = Some(des4);

    let m = MergedInterface::new(Some(d), Some(c.clone())).unwrap();
    for view in [m.for_apply.as_ref().unwrap(), m.for_verify.as_ref().unwrap()] {
        let ip = view.ipv4.as_ref().unwrap();
        assert!(ip.enabled);
        assert_eq!(ip.dhcp, Some(false));
        assert_eq!(ip.addresses, Some(vec![addr("192.0.2.5/24")]));
        assert_eq!(view.ipv6, None);
    }
    assert_eq!(m.merged.ipv4, m.for_apply.as_ref().unwrap().ipv4);
    assert_eq!(m.merged.ipv6, c.ipv6);
    assert_eq!(m.current, Some(c));
}

#[test]
fn test_post_process_checks_wait_ip() {
    let mut c = iface("eth1", InterfaceType::Ethernet);
    c.ipv4 = Some(InterfaceIpv4::new());
    let mut d = iface("eth1", InterfaceType::Ethernet);
    d.ipv4 = Some(InterfaceIpv4::new());
    d.wait_ip = Some(WaitIp::Ipv4);
    let e = MergedInterface::new(Some(d.clone()), Some(c.clone())).unwrap_err();
    assert_eq!(e.kind(), ErrorKind::InvalidArgument);

    c.ipv4 = Some(enabled_v4());
    let m = MergedInterface::new(Some(d), Some(c)).unwrap();
    assert_eq!(m.for_apply.as_ref().unwrap().wait_ip, Some(WaitIp::Ipv4));
    assert!(m.for_apply.as_ref().unwrap().ipv4.as_ref().unwrap().enabled);
}

#[test]
fn test_post_process_clears_wait_ip_on_userspace() {
    let c = iface("br0", InterfaceType::OvsBridge);
    let mut d = iface("br0", InterfaceType::OvsBridge);
    d.wait_ip = Some(WaitIp::Any);
    let mut m = MergedInterface::new(Some(d), Some(c)).unwrap();
    assert_eq!(m.for_apply.as_ref().unwrap().wait_ip, None);
    assert_eq!(m.for_verify.as_ref().unwrap().wait_ip, None);
    assert!(m.post_inter_ifaces_process_ip().is_ok());
}

#[test]
fn test_mark_as_changed() {
    let mut c = iface("eth1", InterfaceType::Ethernet);
    c.ipv4 = Some(enabled_v4());
    let mut m = MergedInterface {
        desired: None,
        current: Some(c.clone()),
        merged: c.clone(),
        for_apply: None,
        for_verify: None,
    };
    assert!(!m.is_changed());
    m.mark_as_changed();
    assert!(m.is_changed());
    assert_eq!(m.for_apply, Some(iface("eth1", InterfaceType::Ethernet)));
    assert_eq!(m.for_verify, Some(iface("eth1", InterfaceType::Ethernet)));
    assert_eq!(m.merged, c);
}

#[test]
fn test_merged_interfaces_push_and_find() {
    let mut set = MergedInterfaces::new();
    assert_eq!(set.find("eth1"), None);
    assert!(set.push(MergedInterface::new(Some(iface("eth1", InterfaceType::Ethernet)), None).unwrap()));
    assert!(set.push(MergedInterface::new(None, Some(iface("eth0", InterfaceType::Veth))).unwrap()));
    assert!(!set.push(MergedInterface::new(Some(iface("eth1", InterfaceType::Dummy)), None).unwrap()));
    assert_eq!(set.find("eth1"), Some(0));
    assert_eq!(set.find("eth0"), Some(1));
    assert_eq!(set.find("eth2"), None);
    assert_eq!(set.kernel_ifaces.len(), 2);
    assert_eq!(set.insert_order, vec![("eth1".to_string(), InterfaceType::Ethernet)]);
}

#[test]
fn test_set_controller_type() {
    let mut port1 = iface("eth1", InterfaceType::Ethernet);
    port1.controller = Some("bond0".to_string());
    let mut port2 = iface("eth2", InterfaceType::Ethernet);
    port2.controller = Some("br0".to_string());
    let mut port3 = iface("eth3", InterfaceType::Ethernet);
    port3.controller = Some("missing".to_string());
    port3.controller_type = Some(InterfaceType::Vrf);
    let mut port4 = iface("eth4", InterfaceType::Ethernet);
    port4.controller = Some("eth1".to_string());
    let free = iface("eth5", InterfaceType::Ethernet);
    let mut ifaces = Interfaces {
        kernel_ifaces: vec![
            port1,
            iface("bond0", InterfaceType::Bond),
            port2,
            port3,
            port4,
            free,
            iface("br0", InterfaceType::LinuxBridge),
        ],
        user_ifaces: vec![iface("br0", InterfaceType::OvsBridge)],
    };
    set_controller_type(&mut ifaces);
    let types: Vec<Option<InterfaceType>> =
        ifaces.kernel_ifaces.iter().map(|i| i.controller_type).collect();
    assert_eq!(
        types,
        vec![
            Some(InterfaceType::Bond),
            None,
            Some(InterfaceType::OvsBridge),
            Some(InterfaceType::Vrf),
            None,
            None,
            None,
        ]
    );
    assert_eq!(ifaces.user_ifaces, vec![iface("br0", InterfaceType::OvsBridge)]);
    assert_eq!(ifaces.kernel_ifaces[0].name, "eth1");
}
