use nmstate::ip::schema::{parse_bool_text, parse_u32_text, parse_u8_text};
use nmstate::nispor::is_iface_left_out;
use nmstate::text::{
    contains_char, find_char, parse_unsigned_decimal, split_ranges, str_eq,
    str_eq_ignore_ascii_case, text_before, text_eq, to_chars,
};
use nmstate::{ErrorKind, InterfaceIpAddr, InterfaceType, NmstateError};

fn chars(s: &str) -> Vec<char> {
    s.chars().collect()
}

fn pieces(s: &str, sep: char) -> Vec<String> {
    let c = chars(s);
    split_ranges(&c, sep)
        .into_iter()
        .map(|(a, b)| c[a..b].iter().collect())
        .collect()
}

#[test]
fn test_to_chars() {
    assert_eq!(to_chars(""), Vec::<char>::new());
    assert_eq!(to_chars("a:b"), vec!['a', ':', 'b']);
    assert_eq!(to_chars("é1"), vec!['é', '1']);
}

#[test]
fn test_split_ranges() {
    assert_eq!(pieces("", '/'), vec![""]);
    assert_eq!(pieces("abc", '/'), vec!["abc"]);
    assert_eq!(pieces("a/b", '/'), vec!["a", "b"]);
    assert_eq!(pieces("a//b", '/'), vec!["a", "", "b"]);
    assert_eq!(pieces("/a/", '/'), vec!["", "a", ""]);
    assert_eq!(pieces("::", ':'), vec!["", "", ""]);
    assert_eq!(pieces("fe80::1%eth0", '%'), vec!["fe80::1", "eth0"]);
}

#[test]
fn test_find_and_contains() {
    let c = chars("a.b.c");
    assert_eq!(find_char(&c, '.', 0), 1);
    assert_eq!(find_char(&c, '.', 1), 1);
    assert_eq!(find_char(&c, '.', 2), 3);
    assert_eq!(find_char(&c, '.', 4), 5);
    assert_eq!(find_char(&c, '.', 5), 5);
    assert_eq!(find_char(&c, 'x', 0), 5);
    assert!(contains_char(&c, 'c'));
    assert!(!contains_char(&c, ':'));
    assert!(!contains_char(&[], 'a'));
}

#[test]
fn test_text_order() {
    let lt = |a: &str, b: &str| text_before(&chars(a), &chars(b));
    assert!(lt("eth1", "eth2"));
    assert!(lt("eth1", "eth10"));
    assert!(lt("eth10", "eth2"));
    assert!(lt("", "a"));
    assert!(lt("Z", "a"));
    assert!(!lt("eth1", "eth1"));
    assert!(!lt("eth2", "eth1"));
    assert!(!lt("a", ""));
    assert!(!lt("", ""));
    let mut names = vec!["eth2", "br0", "eth10", "eth1", "", "Eth1"];
    let mut sorted = names.clone();
    sorted.sort_unstable();
    names.sort_by(|a, b| {
        if lt(a, b) {
            std::cmp::Ordering::Less
        } else if lt(b, a) {
            std::cmp::Ordering::Greater
        } else {
            std::cmp::Ordering::Equal
        }
    });
    assert_eq!(names, sorted);
}

#[test]
fn test_text_equality() {
    assert!(text_eq(&chars("abc"), &chars("abc")));
    assert!(!text_eq(&chars("abc"), &chars("abd")));
    assert!(!text_eq(&chars("abc"), &chars("ab")));
    assert!(text_eq(&[], &[]));
    assert!(str_eq("forever", "forever"));
    assert!(!str_eq("forever", "Forever"));
    assert!(!str_eq("", ":"));
    assert!(str_eq_ignore_ascii_case("IAID+duid", "iaid+duid"));
    assert!(str_eq_ignore_ascii_case("", ""));
    assert!(!str_eq_ignore_ascii_case("ll", "l"));
    assert!(!str_eq_ignore_ascii_case("l1", "ll"));
    assert!(!str_eq_ignore_ascii_case("[", "{"));
    assert!(!str_eq_ignore_ascii_case("@", "`"));
}

#[test]
fn test_parse_unsigned_decimal() {
    let p = |s: &str, cap: u64| parse_unsigned_decimal(&chars(s), cap);
    assert_eq!(p("0", 255), Some(0));
    assert_eq!(p("255", 255), Some(255));
    assert_eq!(p("256", 255), None);
    assert_eq!(p("+7", 255), Some(7));
    assert_eq!(p("007", 255), Some(7));
    assert_eq!(p("", 255), None);
    assert_eq!(p("+", 255), None);
    assert_eq!(p("-1", 255), None);
    assert_eq!(p("1 ", 255), None);
    assert_eq!(p("1a", 255), None);
    assert_eq!(p("++1", 255), None);
    assert_eq!(p("99999999999999999999999999999", 255), None);
    assert_eq!(p("4294967295", 0xffff_ffff), Some(4294967295));
    assert_eq!(p("4294967296", 0xffff_ffff), None);
}

#[test]
fn test_schema_texts() {
    assert_eq!(parse_bool_text("true"), Some(true));
    assert_eq!(parse_bool_text("false"), Some(false));
    assert_eq!(parse_bool_text("True"), None);
    assert_eq!(parse_bool_text(""), None);
    assert_eq!(parse_bool_text("1"), None);
    assert_eq!(parse_u32_text("100"), Some(100));
    assert_eq!(parse_u32_text("4294967295"), Some(u32::MAX));
    assert_eq!(parse_u32_text("4294967296"), None);
    assert_eq!(parse_u32_text("x"), None);
    assert_eq!(parse_u8_text("24"), Some(24));
    assert_eq!(parse_u8_text("255"), Some(255));
    assert_eq!(parse_u8_text("256"), None);
    assert_eq!(parse_u8_text(""), None);
}

#[test]
fn test_iface_left_out() {
    assert!(is_iface_left_out("ovs-system", InterfaceType::Unknown, false));
    assert!(is_iface_left_out("ovs-netdev", InterfaceType::Unknown, false));
    assert!(is_iface_left_out("vti0", InterfaceType::Unknown, true));
    assert!(is_iface_left_out("hfi1_0", InterfaceType::InfiniBand, false));
    assert!(is_iface_left_out("hfi1", InterfaceType::InfiniBand, false));
    assert!(!is_iface_left_out("hfi", InterfaceType::InfiniBand, false));
    assert!(!is_iface_left_out("ib0", InterfaceType::InfiniBand, false));
    assert!(!is_iface_left_out("hfi1_0", InterfaceType::Ethernet, false));
    assert!(!is_iface_left_out("eth0", InterfaceType::Ethernet, false));
    assert!(!is_iface_left_out("ovs-system2", InterfaceType::Ethernet, false));
}

#[test]
fn test_address_entry_text() {
    let mut a = InterfaceIpAddr::try_from("192.0.2.5/24").unwrap();
    assert_eq!(a.to_string(), "192.0.2.5/24");
    a.valid_life_time = Some("forever".to_string());
    assert_eq!(a.to_string(), "192.0.2.5/24");
    a.valid_life_time = Some("60sec".to_string());
    assert_eq!(a.to_string(), "192.0.2.5/24 valid_life_time 60sec preferred_lft forever");
    a.preferred_life_time = Some("30sec".to_string());
    assert_eq!(a.to_string(), "192.0.2.5/24 valid_life_time 60sec preferred_lft 30sec");
    let b = InterfaceIpAddr::try_from("2001:DB8::1/64").unwrap();
    assert_eq!(b.to_string(), "2001:db8::1/64");
    assert_eq!(InterfaceIpAddr::default().to_string(), "::1/128");
    let mut c = InterfaceIpAddr::try_from("10.0.0.1").unwrap();
    c.prefix_length = 255;
    assert_eq!(c.to_string(), "10.0.0.1/255");
    c.prefix_length = 0;
    assert_eq!(c.to_string(), "10.0.0.1/0");
}

#[test]
fn test_error_carries_kind_and_message() {
    let e = NmstateError::new(ErrorKind::PluginFailure, "backend said no".to_string());
    assert_eq!(e.kind(), ErrorKind::PluginFailure);
    assert_eq!(e.msg(), "backend said no");
    let c = e.clone();
    assert_eq!(c.kind(), ErrorKind::PluginFailure);
    assert_eq!(c.msg(), "backend said no");
    let v = NmstateError::with_text(ErrorKind::VerificationError, "differs");
    assert_eq!(v.kind(), ErrorKind::VerificationError);
    assert_eq!(v.msg(), "differs");
    assert_ne!(ErrorKind::Bug, ErrorKind::InvalidArgument);
    assert_ne!(ErrorKind::NotImplementedError, ErrorKind::InvalidArgument);
}

#[test]
fn test_push_decimal_takes_every_number() {
    for n in [0u16, 7, 9, 10, 42, 99, 100, 128, 999, 1000, 1001, 9999, 10000, 12345, 60000, 65535] {
        let mut out = String::from("x");
        nmstate::addr_fmt::push_decimal(&mut out, n);
        assert_eq!(out, format!("x{}", n));
    }
}

#[test]
fn test_address_entries_are_ordered() {
    let a = InterfaceIpAddr::try_from("192.0.2.5/24").unwrap();
    let b = InterfaceIpAddr::try_from("192.0.2.5/25").unwrap();
    let c = InterfaceIpAddr::try_from("192.0.2.6/8").unwrap();
    let d = InterfaceIpAddr::try_from("::1/128").unwrap();
    assert!(a < b);
    assert!(b < c);
    assert!(c < d);
    let mut list = vec![d.clone(), b.clone(), c.clone(), a.clone()];
    list.sort();
    assert_eq!(list, vec![a, b, c, d]);
}
