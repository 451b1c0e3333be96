use nmstate::ip::schema::get_ip_prop_list;
use nmstate::{
    AddressFamily, Dhcpv4ClientId, Dhcpv6Duid, ErrorKind, InterfaceIp, InterfaceIpAddr,
    InterfaceIpv4, InterfaceIpv6, IpProp, Ipv6AddrGenMode, WaitIp,
};

#[test]
fn test_dhcpv4_client_id_from_string() {
    assert_eq!(Dhcpv4ClientId::from("ll".to_string()), Dhcpv4ClientId::LinkLayerAddress);
    assert_eq!(Dhcpv4ClientId::from("LL".to_string()), Dhcpv4ClientId::LinkLayerAddress);
    assert_eq!(Dhcpv4ClientId::from("Ll".to_string()), Dhcpv4ClientId::LinkLayerAddress);
    assert_eq!(Dhcpv4ClientId::from("iaid+duid".to_string()), Dhcpv4ClientId::IaidPlusDuid);
    assert_eq!(Dhcpv4ClientId::from("IAID+DUID".to_string()), Dhcpv4ClientId::IaidPlusDuid);
    assert_eq!(Dhcpv4ClientId::from("IAID+duid".to_string()), Dhcpv4ClientId::IaidPlusDuid);
    assert_eq!(
        Dhcpv4ClientId::from("01:02:03".to_string()),
        Dhcpv4ClientId::Other("01:02:03".to_string())
    );
    assert_eq!(Dhcpv4ClientId::from("".to_string()), Dhcpv4ClientId::Other("".to_string()));
    assert_eq!(Dhcpv4ClientId::from("lll".to_string()), Dhcpv4ClientId::Other("lll".to_string()));
}

#[test]
fn test_dhcpv4_client_id_other_round_trip() {
    for s in ["01:02:03", "MAC", "ll ", "Some-Backend_Value", "", "iaid"] {
        let id = Dhcpv4ClientId::from(s.to_string());
        assert_eq!(id, Dhcpv4ClientId::Other(s.to_string()));
        assert_eq!(id.to_string(), s);
        assert_eq!(Dhcpv4ClientId::from(id.to_string()), id);
    }
    assert_eq!(Dhcpv4ClientId::LinkLayerAddress.to_string(), "ll");
    assert_eq!(Dhcpv4ClientId::IaidPlusDuid.to_string(), "iaid+duid");
    assert_eq!(Dhcpv4ClientId::from("LL".to_string()).to_string(), "ll");
}

#[test]
fn test_dhcpv6_duid() {
    assert_eq!(Dhcpv6Duid::from("llt".to_string()), Dhcpv6Duid::LinkLayerAddressPlusTime);
    assert_eq!(Dhcpv6Duid::from("LLT".to_string()), Dhcpv6Duid::LinkLayerAddressPlusTime);
    assert_eq!(Dhcpv6Duid::from("en".to_string()), Dhcpv6Duid::EnterpriseNumber);
    assert_eq!(Dhcpv6Duid::from("En".to_string()), Dhcpv6Duid::EnterpriseNumber);
    assert_eq!(Dhcpv6Duid::from("ll".to_string()), Dhcpv6Duid::LinkLayerAddress);
    assert_eq!(Dhcpv6Duid::from("uuid".to_string()), Dhcpv6Duid::Uuid);
    assert_eq!(Dhcpv6Duid::from("UUID".to_string()), Dhcpv6Duid::Uuid);
    assert_eq!(Dhcpv6Duid::from("00:01".to_string()), Dhcpv6Duid::Other("00:01".to_string()));
    assert_eq!(Dhcpv6Duid::LinkLayerAddressPlusTime.to_string(), "llt");
    assert_eq!(Dhcpv6Duid::EnterpriseNumber.to_string(), "en");
    assert_eq!(Dhcpv6Duid::LinkLayerAddress.to_string(), "ll");
    assert_eq!(Dhcpv6Duid::Uuid.to_string(), "uuid");
    assert_eq!(Dhcpv6Duid::Other("00:01".to_string()).to_string(), "00:01");
}

#[test]
fn test_ipv6_addr_gen_mode() {
    assert_eq!(Ipv6AddrGenMode::from("eui64".to_string()), Ipv6AddrGenMode::Eui64);
    assert_eq!(Ipv6AddrGenMode::from("EUI64".to_string()), Ipv6AddrGenMode::Eui64);
    assert_eq!(Ipv6AddrGenMode::from("stable-privacy".to_string()), Ipv6AddrGenMode::StablePrivacy);
    assert_eq!(Ipv6AddrGenMode::from("Stable-Privacy".to_string()), Ipv6AddrGenMode::StablePrivacy);
    assert_eq!(
        Ipv6AddrGenMode::from("random".to_string()),
        Ipv6AddrGenMode::Other("random".to_string())
    );
    assert_eq!(Ipv6AddrGenMode::Eui64.to_string(), "eui64");
    assert_eq!(Ipv6AddrGenMode::StablePrivacy.to_string(), "stable-privacy");
    assert_eq!(Ipv6AddrGenMode::Other("random".to_string()).to_string(), "random");
}

#[test]
fn test_wait_ip_text() {
    assert_eq!(WaitIp::Any.to_string(), "any");
    assert_eq!(WaitIp::Ipv4.to_string(), "ipv4");
    assert_eq!(WaitIp::Ipv6.to_string(), "ipv6");
    assert_eq!(WaitIp::Ipv4AndIpv6.to_string(), "ipv4+ipv6");
}

#[test]
fn test_address_family() {
    assert_eq!(AddressFamily::from(2u8), AddressFamily::IPv4);
    assert_eq!(AddressFamily::from(10u8), AddressFamily::IPv6);
    assert_eq!(AddressFamily::from(0u8), AddressFamily::Unknown);
    assert_eq!(AddressFamily::from(3u8), AddressFamily::Unknown);
    assert_eq!(AddressFamily::from(255u8), AddressFamily::Unknown);
    assert_eq!(AddressFamily::default(), AddressFamily::IPv4);
    assert_eq!(AddressFamily::IPv4.to_string(), "ipv4");
    assert_eq!(AddressFamily::IPv6.to_string(), "ipv6");
    assert_eq!(AddressFamily::Unknown.to_string(), "unknown");
}

fn full_form() -> InterfaceIp {
    InterfaceIp {
        enabled: Some(true),
        dhcp: Some(true),
        autoconf: None,
        dhcp_client_id: Some(Dhcpv4ClientId::Other("aa:bb".to_string())),
        dhcp_duid: None,
        addresses: Some(vec![InterfaceIpAddr::try_from("192.0.2.1/24").unwrap()]),
        auto_dns: Some(false),
        auto_gateway: Some(true),
        auto_routes: None,
        auto_table_id: Some(100),
        auto_route_metric: Some(5),
        addr_gen_mode: None,
        allow_extra_address: false,
        token: None,
        dhcp_send_hostname: Some(true),
        dhcp_custom_hostname: Some("host1".to_string()),
    }
}

#[test]
fn test_written_form_round_trip_ipv4() {
    let props = vec![IpProp::Enabled, IpProp::Dhcp, IpProp::Addresses];
    let stack = InterfaceIpv4::from_parsed(full_form(), props.clone()).unwrap();
    assert!(stack.enabled);
    assert_eq!(stack.prop_list, props);
    assert_eq!(stack.dns, None);
    assert_eq!(InterfaceIp::from(stack), full_form());

    let mut sparse = full_form();
    sparse.enabled = None;
    let stack = InterfaceIpv4::from_parsed(sparse, vec![IpProp::Dhcp]).unwrap();
    assert!(!stack.enabled);
    let back = InterfaceIp::from(stack);
    assert_eq!(back.enabled, None);
    assert_eq!(back.dhcp, Some(true));
}

#[test]
fn test_written_form_round_trip_ipv6() {
    let form = InterfaceIp {
        enabled: Some(false),
        dhcp: None,
        autoconf: Some(true),
        dhcp_client_id: None,
        dhcp_duid: Some(Dhcpv6Duid::Uuid),
        addresses: None,
        auto_dns: None,
        auto_gateway: None,
        auto_routes: None,
        auto_table_id: None,
        auto_route_metric: None,
        addr_gen_mode: Some(Ipv6AddrGenMode::Eui64),
        allow_extra_address: true,
        token: Some("::1".to_string()),
        dhcp_send_hostname: None,
        dhcp_custom_hostname: None,
    };
    let stack = InterfaceIpv6::from_parsed(
        InterfaceIp { dhcp_duid: Some(Dhcpv6Duid::Uuid), addr_gen_mode: Some(Ipv6AddrGenMode::Eui64), token: Some("::1".to_string()), ..InterfaceIp { enabled: Some(false), autoconf: Some(true), allow_extra_address: true, ..empty_form() } },
        vec![IpProp::Enabled, IpProp::Autoconf, IpProp::DhcpDuid, IpProp::AddrGenMode],
    )
    .unwrap();
    assert!(!stack.enabled);
    assert_eq!(stack.token, Some("::1".to_string()));
    assert_eq!(InterfaceIp::from(stack), form);
    let bare = InterfaceIpv6::from(empty_form());
    assert_eq!(bare, InterfaceIpv6 { allow_extra_address: false, ..InterfaceIpv6::new() });
}

fn empty_form() -> InterfaceIp {
    InterfaceIp {
        enabled: None,
        dhcp: None,
        autoconf: None,
        dhcp_client_id: None,
        dhcp_duid: None,
        addresses: None,
        auto_dns: None,
        auto_gateway: None,
        auto_routes: None,
        auto_table_id: None,
        auto_route_metric: None,
        addr_gen_mode: None,
        allow_extra_address: false,
        token: None,
        dhcp_send_hostname: None,
        dhcp_custom_hostname: None,
    }
}

#[test]
fn test_written_form_of_wrong_family_is_refused() {
    let e = InterfaceIpv4::from_parsed(empty_form(), vec![IpProp::Enabled, IpProp::Autoconf]).unwrap_err();
    assert_eq!(e.kind(), ErrorKind::InvalidArgument);
    let e = InterfaceIpv4::from_parsed(empty_form(), vec![IpProp::DhcpDuid]).unwrap_err();
    assert_eq!(e.kind(), ErrorKind::InvalidArgument);
    let e = InterfaceIpv6::from_parsed(empty_form(), vec![IpProp::DhcpClientId]).unwrap_err();
    assert_eq!(e.kind(), ErrorKind::InvalidArgument);
    assert!(InterfaceIpv6::from_parsed(empty_form(), vec![IpProp::Autoconf, IpProp::DhcpDuid]).is_ok());
    assert!(InterfaceIpv4::from_parsed(empty_form(), vec![IpProp::DhcpClientId]).is_ok());
}

#[test]
fn test_get_ip_prop_list() {
    let mut map = serde_json::Map::new();
    assert_eq!(get_ip_prop_list(&map), Vec::<IpProp>::new());
    map.insert("dhcp-custom-hostname".to_string(), serde_json::Value::Null);
    map.insert("enabled".to_string(), serde_json::Value::Bool(true));
    map.insert("address".to_string(), serde_json::Value::Array(Vec::new()));
    map.insert("auto-route-metric".to_string(), serde_json::Value::Null);
    map.insert("Enabled ".to_string(), serde_json::Value::Null);
    assert_eq!(
        get_ip_prop_list(&map),
        vec![IpProp::Enabled, IpProp::Addresses, IpProp::DhcpCustomHostname]
    );
    let mut all = serde_json::Map::new();
    for k in [
        "dhcp-send-hostname",
        "addr-gen-mode",
        "auto-route-table-id",
        "auto-routes",
        "auto-gateway",
        "auto-dns",
        "address",
        "dhcp-duid",
        "dhcp-client-id",
        "autoconf",
        "dhcp",
        "enabled",
        "dhcp-custom-hostname",
    ] {
        all.insert(k.to_string(), serde_json::Value::Null);
    }
    assert_eq!(
        get_ip_prop_list(&all),
        vec![
            IpProp::Enabled,
            IpProp::Dhcp,
            IpProp::Autoconf,
            IpProp::DhcpClientId,
            IpProp::DhcpDuid,
            IpProp::Addresses,
            IpProp::AutoDns,
            IpProp::AutoGateway,
            IpProp::AutoRoutes,
            IpProp::AutoTableId,
            IpProp::AddrGenMode,
            IpProp::DhcpSendHostname,
            IpProp::DhcpCustomHostname,
        ]
    );
}

#[test]
fn test_check_prop_list() {
    assert!(InterfaceIpv4::check_prop_list(&vec![IpProp::Enabled, IpProp::DhcpClientId]).is_ok());
    assert_eq!(
        InterfaceIpv4::check_prop_list(&vec![IpProp::Autoconf]).unwrap_err().kind(),
        ErrorKind::InvalidArgument
    );
    assert_eq!(
        InterfaceIpv4::check_prop_list(&vec![IpProp::Dhcp, IpProp::DhcpDuid]).unwrap_err().kind(),
        ErrorKind::InvalidArgument
    );
    assert!(InterfaceIpv6::check_prop_list(&vec![IpProp::Autoconf, IpProp::DhcpDuid]).is_ok());
    assert_eq!(
        InterfaceIpv6::check_prop_list(&vec![IpProp::DhcpClientId]).unwrap_err().kind(),
        ErrorKind::InvalidArgument
    );
}
