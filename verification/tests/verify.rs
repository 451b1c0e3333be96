use nmstate::{
    BaseInterface, Dhcpv4ClientId, ErrorKind, InterfaceIpAddr, InterfaceIpv4, InterfaceIpv6,
    InterfaceType, MergedInterface,
};

fn addr(text: &str) -> InterfaceIpAddr {
    InterfaceIpAddr::try_from(text).unwrap()
}

fn static_v4(addrs: &[&str]) -> InterfaceIpv4 {
    let mut ip = InterfaceIpv4::new();
    ip.enabled = true;
    ip.dhcp = Some(false);
    ip.addresses = Some(addrs.iter().map(|a| addr(a)).collect());
    ip
}

#[test]
fn test_verification_allows_extras() {
    let mut want = static_v4(&["10.0.0.1/24"]);
    want.allow_extra_address = true;
    let have = static_v4(&["10.0.0.1/24", "10.0.0.99/24"]);
    assert!(want.verify(&have).is_ok());
    want.allow_extra_address = false;
    let e = want.verify(&have).unwrap_err();
    assert_eq!(e.kind(), ErrorKind::VerificationError);
}

#[test]
fn test_verification_ignores_auto_extras() {
    let mut want = static_v4(&["10.0.0.1/24"]);
    want.allow_extra_address = false;
    let mut have = static_v4(&["10.0.0.1/24", "10.0.0.99/24"]);
    have.addresses.as_mut().unwrap()[1].valid_life_time = Some("60sec".to_string());
    assert!(want.verify(&have).is_ok());
    have.addresses.as_mut().unwrap()[1].valid_life_time = Some("forever".to_string());
    assert!(want.verify(&have).is_err());
}

#[test]
fn test_verification_needs_every_desired_address() {
    let want = static_v4(&["10.0.0.1/24", "10.0.0.2/24"]);
    assert!(want.verify(&static_v4(&["10.0.0.2/24", "10.0.0.1/24"])).is_ok());
    assert!(want.verify(&static_v4(&["10.0.0.1/24"])).is_err());
    assert!(want.verify(&static_v4(&["10.0.0.1/24", "10.0.0.2/25"])).is_err());
    let mut none = static_v4(&[]);
    none.addresses = None;
    assert!(want.verify(&none).is_err());
    assert!(none.verify(&want).is_ok());
}

#[test]
fn test_verification_compares_stated_fields() {
    let mut want = InterfaceIpv4::new();
    want.enabled = true;
    let mut have = InterfaceIpv4::new();
    have.enabled = true;
    have.dhcp = Some(true);
    have.auto_dns = Some(true);
    have.dhcp_client_id = Some(Dhcpv4ClientId::LinkLayerAddress);
    assert!(want.verify(&have).is_ok());
    want.dhcp = Some(true);
    assert!(want.verify(&have).is_ok());
    want.auto_dns = Some(false);
    assert_eq!(want.verify(&have).unwrap_err().kind(), ErrorKind::VerificationError);
    want.auto_dns = Some(true);
    want.dhcp_client_id = Some(Dhcpv4ClientId::IaidPlusDuid);
    assert!(want.verify(&have).is_err());
    want.dhcp_client_id = Some(Dhcpv4ClientId::LinkLayerAddress);
    assert!(want.verify(&have).is_ok());
    want.auto_table_id = Some(1);
    assert!(want.verify(&have).is_err());
    want.auto_table_id = None;
    have.enabled = false;
    assert!(want.verify(&have).is_err());
}

#[test]
fn test_verification_of_ipv6_stack() {
    let mut want = InterfaceIpv6::new();
    want.enabled = true;
    want.autoconf = Some(true);
    want.token = Some("::fac1".to_string());
    let mut have = want.clone();
    have.dhcp = Some(true);
    have.addresses = Some(vec![addr("2001:db8::fac1/64")]);
    assert!(want.verify(&have).is_ok());
    have.token = Some("::1".to_string());
    assert_eq!(want.verify(&have).unwrap_err().kind(), ErrorKind::VerificationError);
    have.token = None;
    assert!(want.verify(&have).is_err());
}

#[test]
fn test_merged_interface_verify() {
    let mut d = BaseInterface::new("eth1".to_string(), InterfaceType::Ethernet);
    d.ipv4 = Some(static_v4(&["10.0.0.1/24"]));
    let m = MergedInterface::new(Some(d.clone()), None).unwrap();
    let mut cur = d.clone();
    cur.ipv4 = Some(static_v4(&["10.0.0.1/24", "10.0.0.99/24"]));
    cur.ipv6 = Some(InterfaceIpv6::new());
    assert!(m.verify(&cur).is_ok());
    cur.ipv4 = None;
    assert_eq!(m.verify(&cur).unwrap_err().kind(), ErrorKind::VerificationError);
    cur.ipv4 = Some(static_v4(&["10.0.0.2/24"]));
    assert_eq!(m.verify(&cur).unwrap_err().kind(), ErrorKind::VerificationError);
}
