use crate::addr::{is_ipv6_unicast_link_local, is_unicast_link_local, IpAddr};
use crate::addr_fmt::{ip_text, push_decimal};
use crate::ip::types::MptcpAddressFlag;
use crate::text::{clone_opt_text, decimal_text, opt_text, str_eq};
use vstd::prelude::*;
use vstd::string::StringExecFns;

verus! {

/// What an address entry of an interface holds.
pub struct InterfaceIpAddrView {
    pub ip: IpAddr,
    pub prefix_length: u8,
    pub mptcp_flags: Option<Seq<MptcpAddressFlag>>,
    pub valid_life_time: Option<Seq<char>>,
    pub preferred_life_time: Option<Seq<char>>,
}

impl InterfaceIpAddrView {
    /// Whether the address was learned from the network: it has a time to
    /// live that is not `forever`.
    pub open spec fn is_auto(self) -> bool {
        self.valid_life_time is Some && self.valid_life_time->0 != "forever"@
    }

    /// Whether the address is an IPv6 unicast link-local address.
    pub open spec fn is_link_local(self) -> bool {
        match self.ip {
            IpAddr::V6(v) => is_unicast_link_local(v),
            IpAddr::V4(_) => false,
        }
    }

    /// The entry as it is handed on: without times to live and without
    /// flags that are only reported.
    pub open spec fn cleaned(self) -> Self {
        InterfaceIpAddrView {
            ip: self.ip,
            prefix_length: self.prefix_length,
            mptcp_flags: None,
            valid_life_time: None,
            preferred_life_time: None,
        }
    }

    /// The entry without its times to live.
    pub open spec fn made_static(self) -> Self {
        InterfaceIpAddrView {
            ip: self.ip,
            prefix_length: self.prefix_length,
            mptcp_flags: self.mptcp_flags,
            valid_life_time: None,
            preferred_life_time: None,
        }
    }
}

/// One address of an interface, with the length of its network prefix.
#[derive(Debug, PartialEq, Eq, PartialOrd, Ord)]
pub struct InterfaceIpAddr {
    pub ip: IpAddr,
    pub prefix_length: u8,
    /// MPTCP flags of the address; reported only, never applied.
    pub mptcp_flags: Option<Vec<MptcpAddressFlag>>,
    /// The time for which the address stays valid: `forever`, or seconds in
    /// the form `32sec`; reported only, never applied.
    pub valid_life_time: Option<String>,
    /// The time for which the address stays preferred, in the same form;
    /// reported only, never applied.
    pub preferred_life_time: Option<String>,
}

/// What an optional list of MPTCP flags holds.
pub open spec fn opt_flags(o: Option<Vec<MptcpAddressFlag>>) -> Option<Seq<MptcpAddressFlag>> {
    match o {
        Some(v) => Some(v@),
        None => None,
    }
}

impl View for InterfaceIpAddr {
    type V = InterfaceIpAddrView;

    open spec fn view(&self) -> InterfaceIpAddrView {
        InterfaceIpAddrView {
            ip: self.ip,
            prefix_length: self.prefix_length,
            mptcp_flags: opt_flags(self.mptcp_flags),
            valid_life_time: opt_text(self.valid_life_time),
            preferred_life_time: opt_text(self.preferred_life_time),
        }
    }
}

fn clone_flags(o: &Option<Vec<MptcpAddressFlag>>) -> (r: Option<Vec<MptcpAddressFlag>>)
    ensures
        opt_flags(r) == opt_flags(*o),
{
    match o {
        Some(v) => {
            let mut w: Vec<MptcpAddressFlag> = Vec::new();
            let mut i: usize = 0;
            while i < v.len()
                invariant
                    i <= v.len(),
                    w@ =~= v@.take(i as int),
                decreases v.len() - i,
            {
                w.push(v[i]);
                i += 1;
            }
            assert(w@ =~= v@);
            Some(w)
        },
        None => None,
    }
}

impl Clone for InterfaceIpAddr {
    fn clone(&self) -> (r: Self)
        ensures
            r@ == self@,
    {
        InterfaceIpAddr {
            ip: self.ip,
            prefix_length: self.prefix_length,
            mptcp_flags: clone_flags(&self.mptcp_flags),
            valid_life_time: clone_opt_text(&self.valid_life_time),
            preferred_life_time: clone_opt_text(&self.preferred_life_time),
        }
    }
}

impl Default for InterfaceIpAddr {
    /// The IPv6 loopback address, `::1/128`.
    fn default() -> (r: Self)
        ensures
            r@ == (InterfaceIpAddrView {
                ip: IpAddr::V6(1),
                prefix_length: 128,
                mptcp_flags: None,
                valid_life_time: None,
                preferred_life_time: None,
            }),
    {
        InterfaceIpAddr {
            ip: IpAddr::V6(1),
            prefix_length: 128,
            mptcp_flags: None,
            valid_life_time: None,
            preferred_life_time: None,
        }
    }
}

/// The time `o`, or `forever` where none is stated.
pub open spec fn life_time_text(o: Option<Seq<char>>) -> Seq<char> {
    match o {
        Some(t) => t,
        None => "forever"@,
    }
}

impl InterfaceIpAddrView {
    /// The entry as text: address, slash and prefix length; for an
    /// address that was learned from the network, its times to live
    /// too.
    pub open spec fn text(self) -> Seq<char> {
        let net = ip_text(self.ip) + "/"@ + decimal_text(self.prefix_length as nat);
        if self.is_auto() {
            net + " valid_life_time "@ + life_time_text(self.valid_life_time)
                + " preferred_lft "@ + life_time_text(self.preferred_life_time)
        } else {
            net
        }
    }
}

impl InterfaceIpAddr {
    /// The entry as text.
    pub fn to_string(&self) -> (r: String)
        ensures
            r@ == self@.text(),
    {
        let mut out = self.ip.to_string();
        out.append("/");
        push_decimal(&mut out, self.prefix_length as u16);
        if self.is_auto() {
            out.append(" valid_life_time ");
            match &self.valid_life_time {
                Some(t) => out.append(t.as_str()),
                None => out.append("forever"),
            }
            out.append(" preferred_lft ");
            match &self.preferred_life_time {
                Some(t) => out.append(t.as_str()),
                None => out.append("forever"),
            }
        }
        out
    }

    /// Whether the address was learned from the network.
    pub fn is_auto(&self) -> (r: bool)
        ensures
            r == self@.is_auto(),
    {
        match &self.valid_life_time {
            Some(t) => !str_eq(t.as_str(), "forever"),
            None => false,
        }
    }

    /// Whether the address is an IPv6 unicast link-local address.
    pub fn is_link_local(&self) -> (r: bool)
        ensures
            r == self@.is_link_local(),
    {
        match self.ip {
            IpAddr::V6(v) => is_ipv6_unicast_link_local(v),
            IpAddr::V4(_) => false,
        }
    }
}

/// What a list of address entries holds.
pub open spec fn addrs_view(v: Seq<InterfaceIpAddr>) -> Seq<InterfaceIpAddrView> {
    v.map_values(|a: InterfaceIpAddr| a@)
}

/// What an optional list of address entries holds.
pub open spec fn opt_addrs(o: Option<Vec<InterfaceIpAddr>>) -> Option<Seq<InterfaceIpAddrView>> {
    match o {
        Some(v) => Some(addrs_view(v@)),
        None => None,
    }
}

/// A copy of a list of address entries.
pub fn clone_addrs(v: &Vec<InterfaceIpAddr>) -> (r: Vec<InterfaceIpAddr>)
    ensures
        addrs_view(r@) == addrs_view(v@),
{
    let mut r: Vec<InterfaceIpAddr> = Vec::new();
    let mut i: usize = 0;
    while i < v.len()
        invariant
            i <= v.len(),
            r@.len() == i,
            forall|j: int| 0 <= j < i ==> r@[j]@ == v@[j]@,
        decreases v.len() - i,
    {
        r.push(v[i].clone());
        i += 1;
    }
    assert(addrs_view(r@) =~= addrs_view(v@));
    r
}

/// A copy of an optional list of address entries.
pub fn clone_opt_addrs(o: &Option<Vec<InterfaceIpAddr>>) -> (r: Option<Vec<InterfaceIpAddr>>)
    ensures
        opt_addrs(r) == opt_addrs(*o),
{
    match o {
        Some(v) => Some(clone_addrs(v)),
        None => None,
    }
}

/// Whether an optional list of MPTCP flags is left out or empty.
pub fn is_none_or_empty_mptcp_flags(v: &Option<Vec<MptcpAddressFlag>>) -> (r: bool)
    ensures
        r == (opt_flags(*v) is None || opt_flags(*v)->0.len() == 0),
{
    if let Some(v) = v {
        v.len() == 0
    } else {
        true
    }
}

} // verus!
