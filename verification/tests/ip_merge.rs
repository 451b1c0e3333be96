use nmstate::{InterfaceIpAddr, InterfaceIpv4, InterfaceIpv6, IpAddr, IpProp};

fn addr(text: &str) -> InterfaceIpAddr {
    InterfaceIpAddr::try_from(text).unwrap()
}

fn auto_addr(text: &str) -> InterfaceIpAddr {
    let mut a = addr(text);
    a.valid_life_time = Some("3600sec".to_string());
    a.preferred_life_time = Some("3600sec".to_string());
    a
}

fn dhcp_current() -> InterfaceIpv4 {
    let mut current = InterfaceIpv4::new();
    current.enabled = true;
    current.dhcp = Some(true);
    current.addresses = Some(vec![auto_addr("192.0.2.5/24")]);
    current
}

#[test]
fn test_dhcp_off_converts_dynamic_addresses() {
    let current = dhcp_current();
    let mut desired = InterfaceIpv4::new();
    desired.dhcp = Some(false);
    desired.prop_list = vec![IpProp::Dhcp];

    desired.merge_ip(&current);
    assert!(desired.enabled);
    assert_eq!(desired.dhcp, Some(false));
    assert_eq!(desired.addresses, Some(vec![addr("192.0.2.5/24")]));
    let kept = &desired.addresses.as_ref().unwrap()[0];
    assert_eq!(kept.ip, IpAddr::V4(0xC000_0205));
    assert_eq!(kept.prefix_length, 24);
    assert_eq!(kept.valid_life_time, None);
    assert_eq!(kept.preferred_life_time, None);
}

#[test]
fn test_merge_keeps_stated_enabled() {
    let current = dhcp_current();
    let mut desired = InterfaceIpv4::new();
    desired.enabled = false;
    desired.prop_list = vec![IpProp::Enabled];
    desired.merge_ip(&current);
    assert!(!desired.enabled);
    assert_eq!(desired.dhcp, None);
    assert_eq!(desired.addresses, None);
}

#[test]
fn test_merge_inherits_enabled_and_dhcp() {
    let current = dhcp_current();
    let mut desired = InterfaceIpv4::new();
    desired.auto_dns = Some(false);
    desired.prop_list = vec![IpProp::AutoDns];
    desired.merge_ip(&current);
    assert!(desired.enabled);
    assert_eq!(desired.dhcp, Some(true));
    assert_eq!(desired.addresses, None);
    assert_eq!(desired.auto_dns, Some(false));
}

#[test]
fn test_merge_keeps_desired_static_addresses() {
    let current = dhcp_current();
    let mut desired = InterfaceIpv4::new();
    desired.enabled = true;
    desired.dhcp = Some(false);
    desired.addresses = Some(vec![addr("198.51.100.1/24")]);
    desired.prop_list = vec![IpProp::Enabled, IpProp::Dhcp, IpProp::Addresses];
    desired.merge_ip(&current);
    assert_eq!(desired.addresses, Some(vec![addr("198.51.100.1/24")]));
}

#[test]
fn test_merge_replaces_desired_auto_addresses() {
    let current = dhcp_current();
    let mut desired = InterfaceIpv4::new();
    desired.enabled = true;
    desired.dhcp = Some(false);
    desired.addresses = Some(vec![auto_addr("198.51.100.1/24")]);
    desired.prop_list = vec![IpProp::Enabled, IpProp::Dhcp, IpProp::Addresses];
    desired.merge_ip(&current);
    assert_eq!(desired.addresses, Some(vec![addr("192.0.2.5/24")]));
}

#[test]
fn test_merge_static_current_is_not_copied() {
    let mut current = InterfaceIpv4::new();
    current.enabled = true;
    current.dhcp = Some(false);
    current.addresses = Some(vec![addr("192.0.2.5/24")]);
    let mut desired = InterfaceIpv4::new();
    desired.dhcp = Some(false);
    desired.prop_list = vec![IpProp::Dhcp];
    desired.merge_ip(&current);
    assert!(desired.enabled);
    assert_eq!(desired.addresses, None);
}

#[test]
fn test_merge_ipv6_autoconf_off() {
    let mut current = InterfaceIpv6::new();
    current.enabled = true;
    current.dhcp = Some(true);
    current.autoconf = Some(true);
    current.addresses = Some(vec![auto_addr("2001:db8::5/64"), addr("fe80::1/64")]);

    let mut desired = InterfaceIpv6::new();
    desired.dhcp = Some(false);
    desired.autoconf = Some(false);
    desired.addresses = Some(vec![addr("fe80::2/64")]);
    desired.prop_list = vec![IpProp::Dhcp, IpProp::Autoconf, IpProp::Addresses];
    desired.merge_ip(&current);
    assert!(desired.enabled);
    assert_eq!(desired.dhcp, Some(false));
    assert_eq!(desired.autoconf, Some(false));
    assert_eq!(desired.addresses, Some(vec![addr("2001:db8::5/64"), addr("fe80::1/64")]));

    let mut partly = InterfaceIpv6::new();
    partly.dhcp = Some(false);
    partly.prop_list = vec![IpProp::Dhcp];
    partly.merge_ip(&current);
    assert_eq!(partly.autoconf, Some(true));
    assert_eq!(partly.addresses, None);
}

#[test]
fn test_special_merge_ipv4() {
    let current = dhcp_current();
    let mut desired = InterfaceIpv4::new();
    desired.dhcp = Some(false);
    desired.prop_list = vec![IpProp::Dhcp];
    let before = desired.clone();
    let mut merged = desired.clone();
    merged.special_merge(&desired, &current);
    assert!(merged.enabled);
    assert_eq!(merged.dhcp, Some(false));
    assert_eq!(merged.addresses, Some(vec![addr("192.0.2.5/24")]));
    let kept = &merged.addresses.as_ref().unwrap()[0];
    assert_eq!(kept.valid_life_time, None);
    assert_eq!(kept.preferred_life_time, None);
    assert_eq!(kept.mptcp_flags, None);
    assert_eq!(merged.auto_dns, None);
    assert_eq!(desired, before);
    assert_eq!(current, dhcp_current());

    let mut current = dhcp_current();
    current.addresses = Some(vec![auto_addr("192.0.2.5/24"), addr("192.0.2.6/24")]);
    let mut merged = desired.clone();
    merged.special_merge(&desired, &current);
    assert!(merged.enabled);
    assert_eq!(merged.dhcp, Some(false));
    assert_eq!(merged.addresses, Some(vec![addr("192.0.2.5/24"), addr("192.0.2.6/24")]));
}

#[test]
fn test_special_merge_goes_by_desired_prop_list() {
    let current = dhcp_current();
    let mut desired = InterfaceIpv4::new();
    desired.enabled = false;
    desired.prop_list = vec![IpProp::Enabled];
    let mut merged = current.clone();
    merged.enabled = false;
    merged.prop_list = vec![];
    merged.special_merge(&desired, &current);
    assert!(!merged.enabled);
    assert_eq!(merged.dhcp, None);
    assert_eq!(merged.addresses, None);

    let mut silent = InterfaceIpv4::new();
    silent.auto_dns = Some(false);
    silent.prop_list = vec![IpProp::AutoDns];
    let mut merged = silent.clone();
    merged.prop_list = vec![IpProp::Enabled];
    merged.special_merge(&silent, &current);
    assert!(merged.enabled);
    assert_eq!(merged.dhcp, Some(true));
    assert_eq!(merged.auto_dns, Some(false));
    assert_eq!(merged.auto_routes, Some(true));
    assert_eq!(merged.addresses, None);
}

#[test]
fn test_special_merge_ipv6_goes_by_its_own_addresses() {
    let mut current = InterfaceIpv6::new();
    current.enabled = true;
    current.autoconf = Some(true);
    current.addresses = Some(vec![auto_addr("2001:db8::6/64"), addr("fe80::1/64")]);

    let mut desired = InterfaceIpv6::new();
    desired.enabled = true;
    desired.dhcp = Some(false);
    desired.autoconf = Some(false);
    desired.prop_list = vec![IpProp::Enabled, IpProp::Dhcp, IpProp::Autoconf];

    let mut merged = desired.clone();
    merged.special_merge(&desired, &current);
    assert!(merged.enabled);
    assert_eq!(merged.dhcp, Some(false));
    assert_eq!(merged.autoconf, Some(false));
    assert_eq!(merged.addresses, Some(vec![addr("2001:db8::6/64")]));
    assert_eq!(merged.auto_dns, None);

    let mut merged = desired.clone();
    merged.addresses = Some(vec![addr("2001:db8::77/64")]);
    merged.special_merge(&desired, &current);
    assert!(merged.enabled);
    assert_eq!(merged.addresses, Some(vec![addr("2001:db8::77/64")]));

    let mut merged = desired.clone();
    merged.addresses = Some(vec![auto_addr("2001:db8::78/64"), addr("fe80::9/64")]);
    merged.special_merge(&desired, &current);
    assert_eq!(merged.addresses, Some(vec![addr("2001:db8::6/64")]));
}
