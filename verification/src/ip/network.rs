use crate::addr::{apply_ip_prefix_len, ip_text_value, parse_ip, prefix_masked, IpAddr};
use crate::addr_fmt::{ip_text, push_decimal};
use crate::error::{ErrorKind, NmstateError};
use crate::ip::address::{InterfaceIpAddr, InterfaceIpAddrView};
use crate::text::{
    decimal_text, parse_unsigned_decimal, split_ranges, split_seq, to_chars, unsigned_decimal_value,
};
use vstd::prelude::*;
use vstd::slice::slice_subrange;
use vstd::string::StringExecFns;

verus! {

/// The number of bits of an IPv4 address.
pub const IPV4_ADDR_LEN: usize = 32;

/// The number of bits of an IPv6 address.
pub const IPV6_ADDR_LEN: usize = 128;

/// The number of bits of an address.
pub open spec fn family_bits(ip: IpAddr) -> nat {
    match ip {
        IpAddr::V4(_) => 32,
        IpAddr::V6(_) => 128,
    }
}

/// The canonical text of an IP network written as `ip` or `ip/prefix`:
/// the address with the host bits cleared, a slash and the prefix length;
/// a network without a prefix is the single address.
pub open spec fn ip_network_text(s: Seq<char>) -> Option<Seq<char>> {
    let p = split_seq(s, '/');
    if p.len() == 1 {
        match ip_text_value(p[0]) {
            Some(ip) => Some(ip_text(ip) + seq!['/'] + decimal_text(family_bits(ip))),
            None => None,
        }
    } else if p.len() == 2 {
        match (unsigned_decimal_value(p[1]), ip_text_value(p[0])) {
            (Some(n), Some(ip)) => if n <= family_bits(ip) {
                Some(ip_text(prefix_masked(ip, n as usize)) + seq!['/'] + decimal_text(n))
            } else {
                None
            },
            _ => None,
        }
    } else {
        None
    }
}

/// Brings the text of an IP network to its canonical form.
pub fn sanitize_ip_network(ip_net: &str) -> (r: Result<String, NmstateError>)
    ensures
        match ip_network_text(ip_net@) {
            Some(t) => r is Ok && r->Ok_0@ == t,
            None => r is Err && r->Err_0.kind() == ErrorKind::InvalidArgument,
        },
{
    proof {
        reveal_strlit("/");
        assert("/"@ =~= seq!['/']);
    }
    let chars = to_chars(ip_net);
    let ranges = split_ranges(chars.as_slice(), '/');
    if ranges.len() == 1 {
        let text = slice_subrange(chars.as_slice(), ranges[0].0, ranges[0].1);
        match parse_ip(text) {
            Some(ip) => {
                let mut out = ip.to_string();
                out.append("/");
                if ip.is_ipv6() {
                    push_decimal(&mut out, 128);
                } else {
                    push_decimal(&mut out, 32);
                }
                Ok(out)
            },
            None => Err(
                NmstateError::with_text(ErrorKind::InvalidArgument, "Invalid IP network"),
            ),
        }
    } else if ranges.len() == 2 {
        let prefix_text = slice_subrange(chars.as_slice(), ranges[1].0, ranges[1].1);
        let text = slice_subrange(chars.as_slice(), ranges[0].0, ranges[0].1);
        match parse_unsigned_decimal(prefix_text, 128) {
            None => Err(
                NmstateError::with_text(
                    ErrorKind::InvalidArgument,
                    "Invalid IP network prefix length",
                ),
            ),
            Some(n) => match parse_ip(text) {
                None => Err(
                    NmstateError::with_text(ErrorKind::InvalidArgument, "Invalid IP network"),
                ),
                Some(ip) => {
                    let prefix_len: usize = n as usize;
                    if !ip.is_ipv6() && prefix_len > IPV4_ADDR_LEN {
                        return Err(
                            NmstateError::with_text(
                                ErrorKind::InvalidArgument,
                                "Invalid IPv4 network prefix length, should be smaller than 32",
                            ),
                        );
                    }
                    let masked = apply_ip_prefix_len(ip, prefix_len);
                    let mut out = masked.to_string();
                    out.append("/");
                    push_decimal(&mut out, n as u16);
                    Ok(out)
                },
            },
        }
    } else {
        Err(
            NmstateError::with_text(
                ErrorKind::InvalidArgument,
                "Invalid IP network string, expecting 'ip/prefix' or 'ip' format, \
                 for example: 192.0.2.0/24 or 2001:db8:1::/64 or 192.0.2.1",
            ),
        )
    }
}

/// The address and prefix length that a text of the form `ip` or
/// `ip/prefix` writes. Without a prefix the address stands alone; what
/// follows a second slash is not read.
pub open spec fn ip_addr_entry(s: Seq<char>) -> Option<(IpAddr, u8)> {
    let p = split_seq(s, '/');
    match ip_text_value(p[0]) {
        None => None,
        Some(ip) => if p.len() < 2 || p[1].len() == 0 {
            Some((ip, family_bits(ip) as u8))
        } else {
            match unsigned_decimal_value(p[1]) {
                Some(n) => if n <= 255 {
                    Some((ip, n as u8))
                } else {
                    None
                },
                None => None,
            }
        },
    }
}

impl InterfaceIpAddr {
    /// Reads an address entry from a text of the form `ip` or `ip/prefix`.
    pub fn try_from(value: &str) -> (r: Result<Self, NmstateError>)
        ensures
            match ip_addr_entry(value@) {
                Some(e) => r is Ok && r->Ok_0@ == (InterfaceIpAddrView {
                    ip: e.0,
                    prefix_length: e.1,
                    mptcp_flags: None,
                    valid_life_time: None,
                    preferred_life_time: None,
                }),
                None => r is Err && r->Err_0.kind() == ErrorKind::InvalidArgument,
            },
    {
        let chars = to_chars(value);
        let ranges = split_ranges(chars.as_slice(), '/');
        let text = slice_subrange(chars.as_slice(), ranges[0].0, ranges[0].1);
        let ip = match parse_ip(text) {
            Some(ip) => ip,
            None => {
                return Err(
                    NmstateError::with_text(ErrorKind::InvalidArgument, "Invalid IP address"),
                );
            },
        };
        let prefix_length: u8 = if ranges.len() < 2 || ranges[1].0 == ranges[1].1 {
            if ip.is_ipv6() {
                128
            } else {
                32
            }
        } else {
            let prefix_text = slice_subrange(chars.as_slice(), ranges[1].0, ranges[1].1);
            match parse_unsigned_decimal(prefix_text, 255) {
                Some(n) => n as u8,
                None => {
                    return Err(
                        NmstateError::with_text(
                            ErrorKind::InvalidArgument,
                            "Invalid IP address prefix length",
                        ),
                    );
                },
            }
        };
        Ok(
            InterfaceIpAddr {
                ip,
                prefix_length,
                mptcp_flags: None,
                valid_life_time: None,
                preferred_life_time: None,
            },
        )
    }
}

} // verus!
