use crate::addr::ipv6_text_value;
use crate::addr_fmt::{join_hex, segments_of, zero_run_len};
use crate::dns_state::DnsClientStateView;
use crate::ip::address::InterfaceIpAddrView;
use crate::ip::types::{Dhcpv4ClientIdView, Dhcpv6DuidView, IpProp, Ipv6AddrGenModeView};
use vstd::prelude::*;

verus! {

/// What the IP stack of one family on one interface holds. An IPv4 stack
/// leaves `autoconf`, `dhcp_duid`, `addr_gen_mode` and `token` out; an IPv6
/// stack leaves `dhcp_client_id` out.
pub struct IpStack {
    pub enabled: bool,
    /// The fields that the user wrote, in the order of the schema.
    pub prop_list: Seq<IpProp>,
    pub dhcp: Option<bool>,
    pub autoconf: Option<bool>,
    pub dhcp_client_id: Option<Dhcpv4ClientIdView>,
    pub dhcp_duid: Option<Dhcpv6DuidView>,
    pub addr_gen_mode: Option<Ipv6AddrGenModeView>,
    pub addresses: Option<Seq<InterfaceIpAddrView>>,
    pub auto_dns: Option<bool>,
    pub auto_gateway: Option<bool>,
    pub auto_routes: Option<bool>,
    pub auto_table_id: Option<u32>,
    pub allow_extra_address: bool,
    pub auto_route_metric: Option<u32>,
    pub token: Option<Seq<char>>,
    pub dhcp_send_hostname: Option<bool>,
    pub dhcp_custom_hostname: Option<Seq<char>>,
    pub dns: Option<DnsClientStateView>,
}

impl IpStack {
    /// The stack that is switched off and states nothing else; extra
    /// addresses are allowed.
    pub open spec fn disabled() -> IpStack {
        IpStack {
            enabled: false,
            prop_list: seq![],
            dhcp: None,
            autoconf: None,
            dhcp_client_id: None,
            dhcp_duid: None,
            addr_gen_mode: None,
            addresses: None,
            auto_dns: None,
            auto_gateway: None,
            auto_routes: None,
            auto_table_id: None,
            allow_extra_address: true,
            auto_route_metric: None,
            token: None,
            dhcp_send_hostname: None,
            dhcp_custom_hostname: None,
            dns: None,
        }
    }

    /// Whether the stack learns its addresses from the network.
    pub open spec fn is_auto(self) -> bool {
        self.enabled && (self.dhcp == Some(true) || self.autoconf == Some(true))
    }

    /// Whether the stack is switched on, is not dynamic, and has an address.
    pub open spec fn is_static(self) -> bool {
        self.enabled && !self.is_auto() && self.addresses is Some && self.addresses->0.len() > 0
    }

    /// Whether the user wrote the field `p`.
    pub open spec fn states(self, p: IpProp) -> bool {
        self.prop_list.contains(p)
    }
}

/// The longest prefix of a family.
pub open spec fn prefix_limit(is_ipv6: bool) -> u8 {
    if is_ipv6 {
        128
    } else {
        32
    }
}

/// Whether an address belongs to the family and its prefix is no longer
/// than the family allows.
pub open spec fn addr_fits(a: InterfaceIpAddrView, is_ipv6: bool) -> bool {
    (a.ip is V6) == is_ipv6 && a.prefix_length <= prefix_limit(is_ipv6)
}

/// Whether every address that the stack lists fits its family.
pub open spec fn addresses_fit(s: IpStack, is_ipv6: bool) -> bool {
    s.addresses is Some ==> forall|i: int|
        0 <= i < s.addresses->0.len() ==> addr_fits(#[trigger] s.addresses->0[i], is_ipv6)
}

/// Whether an address stays in the list that is handed on: it was not
/// learned from the network, and in an IPv6 stack it is an IPv6 address
/// that is not link-local.
pub open spec fn addr_kept(a: InterfaceIpAddrView, is_ipv6: bool) -> bool {
    !a.is_auto() && (is_ipv6 ==> a.ip is V6 && !a.is_link_local())
}

/// The addresses that stay, in their order, each without times to live and
/// without reported flags.
pub open spec fn kept_addresses(addrs: Seq<InterfaceIpAddrView>, is_ipv6: bool) -> Seq<
    InterfaceIpAddrView,
>
    decreases addrs.len(),
{
    if addrs.len() == 0 {
        seq![]
    } else {
        let rest = kept_addresses(addrs.drop_last(), is_ipv6);
        if addr_kept(addrs.last(), is_ipv6) {
            rest.push(addrs.last().cleaned())
        } else {
            rest
        }
    }
}

/// `Some(true)` where nothing is stated.
pub open spec fn or_true(o: Option<bool>) -> Option<bool> {
    match o {
        Some(b) => Some(b),
        None => Some(true),
    }
}

/// The stack in its normal form, the identifier token aside.
///
/// Addresses that were learned from the network leave the list, and from
/// an IPv6 stack those that are link-local or not IPv6; what stays loses
/// its times to live and its reported flags. A stack that is switched on
/// with an empty list is switched off; a stack that is off states no
/// `dhcp`, no `autoconf` and no addresses. A dynamic stack takes its
/// automatic DNS, routes and gateway unless it states otherwise; a stack
/// that is not dynamic states nothing of what only a dynamic one needs. A
/// stack that does not send its host name states no host name of its own.
pub open spec fn normalized(s: IpStack, is_ipv6: bool) -> IpStack {
    let addrs = match s.addresses {
        Some(a) => Some(kept_addresses(a, is_ipv6)),
        None => None,
    };
    let enabled = s.enabled && !(addrs is Some && addrs->0.len() == 0);
    let auto = enabled && (s.dhcp == Some(true) || s.autoconf == Some(true));
    IpStack {
        enabled,
        dhcp: if enabled {
            s.dhcp
        } else {
            None
        },
        autoconf: if enabled {
            s.autoconf
        } else {
            None
        },
        addresses: if enabled {
            addrs
        } else {
            None
        },
        auto_dns: if auto {
            or_true(s.auto_dns)
        } else {
            None
        },
        auto_gateway: if auto {
            or_true(s.auto_gateway)
        } else {
            None
        },
        auto_routes: if auto {
            or_true(s.auto_routes)
        } else {
            None
        },
        auto_table_id: if auto {
            s.auto_table_id
        } else {
            None
        },
        auto_route_metric: if auto {
            s.auto_route_metric
        } else {
            None
        },
        dhcp_client_id: if auto {
            s.dhcp_client_id
        } else {
            None
        },
        dhcp_duid: if auto {
            s.dhcp_duid
        } else {
            None
        },
        dhcp_send_hostname: if auto {
            s.dhcp_send_hostname
        } else {
            None
        },
        dhcp_custom_hostname: if auto && s.dhcp_send_hostname != Some(false) {
            s.dhcp_custom_hostname
        } else {
            None
        },
        prop_list: s.prop_list,
        addr_gen_mode: s.addr_gen_mode,
        allow_extra_address: s.allow_extra_address,
        token: s.token,
        dns: s.dns,
    }
}

/// The text of an identifier token whose value is `v`: `::`, and behind
/// it the segments of `v` that follow its leading zero segments, in
/// hexadecimal and joined by colons. So the token `fac1` is written
/// `::fac1`, the token zero `::`, and no token is written with a dotted
/// IPv4 address.
pub open spec fn token_text(v: nat) -> Seq<char> {
    let g = segments_of(v);
    seq![':', ':'] + join_hex(g.skip(zero_run_len(g, 0) as int))
}

/// The canonical text of an identifier token: `::` for the empty text;
/// else the text must write an IPv6 address whose first 64 bits are zero.
pub open spec fn token_canonical(t: Seq<char>) -> Option<Seq<char>> {
    if t.len() == 0 {
        Some(seq![':', ':'])
    } else {
        match ipv6_text_value(t) {
            Some(v) => if v < 0x1_0000_0000_0000_0000 {
                Some(token_text(v))
            } else {
                None
            },
            None => None,
        }
    }
}

/// Whether a token asks for more than the default.
pub open spec fn token_is_set(t: Seq<char>) -> bool {
    t.len() != 0 && t != seq![':', ':']
}

/// What sanitizing makes of a stack, and whether it succeeds.
///
/// A desired stack with an address of the other family, or with a prefix
/// that is too long, is refused and left as it is. Else the stack is
/// brought to its normal form. Then a token, if there is one, is brought
/// to its canonical text; a stack is refused with its token untouched
/// where the token is no IPv6 address with 64 zero bits in front, or where
/// a desired stack sets a token while it switches `autoconf` off.
pub open spec fn sanitize_outcome(s: IpStack, is_ipv6: bool, is_desired: bool) -> (IpStack, bool) {
    if is_desired && !addresses_fit(s, is_ipv6) {
        (s, false)
    } else {
        let n = normalized(s, is_ipv6);
        match n.token {
            None => (n, true),
            Some(t) => if is_desired && n.autoconf == Some(false) && token_is_set(t) {
                (n, false)
            } else {
                match token_canonical(t) {
                    Some(c) => (
                        IpStack {
                            token: Some(c),
                            ..n
                        },
                        true,
                    ),
                    None => (n, false),
                }
            },
        }
    }
}

/// Whether a list of addresses is left out, or holds only addresses that
/// were learned from the network or are IPv6 link-local.
pub open spec fn addrs_none_or_all_auto(addrs: Option<Seq<InterfaceIpAddrView>>) -> bool {
    addrs is None || forall|i: int|
        0 <= i < addrs->0.len() ==> (#[trigger] addrs->0[i]).is_link_local() || addrs->0[i].is_auto()
}

/// The addresses of `addrs`, each without its times to live.
pub open spec fn made_static(addrs: Seq<InterfaceIpAddrView>) -> Seq<InterfaceIpAddrView> {
    addrs.map_values(|a: InterfaceIpAddrView| a.made_static())
}

/// The stack `s` completed from the running stack `current`.
///
/// Whether the stack is on comes from `current` unless the fields in
/// `stated` include it; `dhcp` and `autoconf` come from `current` where
/// `given` leaves them out and the stack is on. Where `current` is dynamic
/// and lists addresses, and the result is on and not dynamic, and the
/// addresses of `s` are left out or all learned from the network, the
/// result takes the addresses of `current` as static ones, that is,
/// without their times to live.
pub open spec fn completed(s: IpStack, stated: Seq<IpProp>, given: IpStack, current: IpStack)
    -> IpStack {
    let enabled = if stated.contains(IpProp::Enabled) {
        s.enabled
    } else {
        current.enabled
    };
    let dhcp = if given.dhcp is None && enabled {
        current.dhcp
    } else {
        s.dhcp
    };
    let autoconf = if given.autoconf is None && enabled {
        current.autoconf
    } else {
        s.autoconf
    };
    let auto = enabled && (dhcp == Some(true) || autoconf == Some(true));
    let takes = current.is_auto() && current.addresses is Some && enabled && !auto
        && addrs_none_or_all_auto(s.addresses);
    IpStack {
        enabled,
        dhcp,
        autoconf,
        addresses: if takes {
            Some(made_static(current.addresses->0))
        } else {
            s.addresses
        },
        ..s
    }
}

/// The desired stack `s` merged with the running stack `current`: it is
/// completed from it by what it states itself.
pub open spec fn merged_ip(s: IpStack, current: IpStack) -> IpStack {
    completed(s, s.prop_list, s, current)
}

/// The stack `s` reconciled with a desired stack and the running stack:
/// completed from `current` as in `merged_ip`, but by what `desired`
/// states, and then brought to its normal form.
pub open spec fn special_merged(s: IpStack, desired: IpStack, current: IpStack, is_ipv6: bool)
    -> IpStack {
    sanitize_outcome(completed(s, desired.prop_list, desired, current), is_ipv6, false).0
}

} // verus!
