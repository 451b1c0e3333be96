use crate::dns_state::{DnsClientState, DnsClientStateView};
use crate::error::{ErrorKind, NmstateError};
use crate::ip::address::{addrs_view, clone_opt_addrs, opt_addrs, InterfaceIpAddr};
use crate::ip::model::{
    addr_fits, addrs_none_or_all_auto, kept_addresses, made_static, merged_ip, prefix_limit,
    sanitize_outcome, special_merged, IpStack,
};
use crate::ip::types::{
    Dhcpv4ClientId, Dhcpv4ClientIdView, Dhcpv6Duid, Dhcpv6DuidView, IpProp, Ipv6AddrGenMode,
    Ipv6AddrGenModeView,
};
use crate::text::{clone_opt_text, opt_text};
use vstd::prelude::*;

verus! {

/// Extra addresses are allowed unless the user says otherwise.
pub fn default_allow_extra_address() -> (r: bool)
    ensures
        r,
{
    true
}

/// What an optional DHCPv4 client identifier holds.
pub open spec fn opt_client_id(o: Option<Dhcpv4ClientId>) -> Option<Dhcpv4ClientIdView> {
    match o {
        Some(c) => Some(c@),
        None => None,
    }
}

/// What an optional DHCPv6 unique identifier holds.
pub open spec fn opt_duid(o: Option<Dhcpv6Duid>) -> Option<Dhcpv6DuidView> {
    match o {
        Some(c) => Some(c@),
        None => None,
    }
}

/// What an optional way of generating addresses holds.
pub open spec fn opt_gen_mode(o: Option<Ipv6AddrGenMode>) -> Option<Ipv6AddrGenModeView> {
    match o {
        Some(c) => Some(c@),
        None => None,
    }
}

/// What an optional DNS client configuration holds.
pub open spec fn opt_dns(o: Option<DnsClientState>) -> Option<DnsClientStateView> {
    match o {
        Some(c) => Some(c@),
        None => None,
    }
}

pub(crate) fn clone_opt_dns(o: &Option<DnsClientState>) -> (r: Option<DnsClientState>)
    ensures
        opt_dns(r) == opt_dns(*o),
{
    match o {
        Some(c) => Some(c.clone()),
        None => None,
    }
}

pub(crate) fn clone_props(v: &Vec<IpProp>) -> (r: Vec<IpProp>)
    ensures
        r@ == v@,
{
    let mut r: Vec<IpProp> = Vec::new();
    let mut i: usize = 0;
    while i < v.len()
        invariant
            i <= v.len(),
            r@ =~= v@.take(i as int),
        decreases v.len() - i,
    {
        r.push(v[i]);
        i += 1;
    }
    assert(r@ =~= v@);
    r
}

/// Whether the user wrote the field `p`.
pub fn props_contain(list: &Vec<IpProp>, p: IpProp) -> (r: bool)
    ensures
        r == list@.contains(p),
{
    let mut i: usize = 0;
    while i < list.len()
        invariant
            i <= list.len(),
            forall|j: int| 0 <= j < i ==> list@[j] != p,
        decreases list.len() - i,
    {
        if list[i] == p {
            return true;
        }
        i += 1;
    }
    false
}

pub(crate) fn is_true(o: Option<bool>) -> (r: bool)
    ensures
        r == (o == Some(true)),
{
    match o {
        Some(b) => b,
        None => false,
    }
}

pub(crate) fn is_false(o: Option<bool>) -> (r: bool)
    ensures
        r == (o == Some(false)),
{
    match o {
        Some(b) => !b,
        None => false,
    }
}

pub(crate) fn or_true(o: Option<bool>) -> (r: Option<bool>)
    ensures
        r == crate::ip::model::or_true(o),
{
    match o {
        Some(b) => Some(b),
        None => Some(true),
    }
}

pub(crate) fn addrs_fit(addrs: &Vec<InterfaceIpAddr>, is_ipv6: bool) -> (r: bool)
    ensures
        r == forall|i: int|
            0 <= i < addrs@.len() ==> addr_fits(#[trigger] addrs_view(addrs@)[i], is_ipv6),
{
    let limit: u8 = if is_ipv6 {
        128
    } else {
        32
    };
    let mut i: usize = 0;
    while i < addrs.len()
        invariant
            i <= addrs.len(),
            limit == prefix_limit(is_ipv6),
            forall|j: int| 0 <= j < i ==> addr_fits(#[trigger] addrs_view(addrs@)[j], is_ipv6),
        decreases addrs.len() - i,
    {
        if addrs[i].ip.is_ipv6() != is_ipv6 || addrs[i].prefix_length > limit {
            assert(!addr_fits(addrs_view(addrs@)[i as int], is_ipv6));
            return false;
        }
        i += 1;
    }
    true
}

pub(crate) fn keep_addresses(addrs: &Vec<InterfaceIpAddr>, is_ipv6: bool) -> (r: Vec<InterfaceIpAddr>)
    ensures
        addrs_view(r@) == kept_addresses(addrs_view(addrs@), is_ipv6),
{
    let mut r: Vec<InterfaceIpAddr> = Vec::new();
    let mut i: usize = 0;
    let ghost all = addrs_view(addrs@);
    assert(addrs_view(r@) =~= kept_addresses(all.take(0), is_ipv6));
    while i < addrs.len()
        invariant
            i <= addrs.len(),
            all == addrs_view(addrs@),
            addrs_view(r@) == kept_addresses(all.take(i as int), is_ipv6),
        decreases addrs.len() - i,
    {
        let a = &addrs[i];
        proof {
            let next = all.take(i + 1);
            assert(next.drop_last() =~= all.take(i as int));
            assert(next.last() == a@);
        }
        let keep = !a.is_auto() && (!is_ipv6 || (a.ip.is_ipv6() && !a.is_link_local()));
        if keep {
            let ghost before = addrs_view(r@);
            let b = InterfaceIpAddr {
                ip: a.ip,
                prefix_length: a.prefix_length,
                mptcp_flags: None,
                valid_life_time: None,
                preferred_life_time: None,
            };
            r.push(b);
            assert(addrs_view(r@) =~= before.push(a@.cleaned()));
        }
        i += 1;
    }
    assert(all.take(i as int) =~= all);
    r
}

pub(crate) fn static_addresses(addrs: &Vec<InterfaceIpAddr>) -> (r: Vec<InterfaceIpAddr>)
    ensures
        addrs_view(r@) == made_static(addrs_view(addrs@)),
{
    let mut r: Vec<InterfaceIpAddr> = Vec::new();
    let mut i: usize = 0;
    while i < addrs.len()
        invariant
            i <= addrs.len(),
            r@.len() == i,
            forall|j: int| 0 <= j < i ==> r@[j]@ == addrs@[j]@.made_static(),
        decreases addrs.len() - i,
    {
        let mut b = addrs[i].clone();
        b.valid_life_time = None;
        b.preferred_life_time = None;
        r.push(b);
        i += 1;
    }
    assert(addrs_view(r@) =~= made_static(addrs_view(addrs@)));
    r
}

/// Whether a list of addresses is left out, or holds only addresses that
/// were learned from the network or are IPv6 link-local.
pub fn is_ip_addrs_none_or_all_auto(addrs: &Option<Vec<InterfaceIpAddr>>) -> (r: bool)
    ensures
        r == addrs_none_or_all_auto(opt_addrs(*addrs)),
{
    match addrs {
        None => true,
        Some(v) => {
            let mut i: usize = 0;
            while i < v.len()
                invariant
                    i <= v.len(),
                    *addrs == Some(*v),
                    forall|j: int|
                        0 <= j < i ==> (#[trigger] addrs_view(v@)[j]).is_link_local() || addrs_view(
                            v@,
                        )[j].is_auto(),
                decreases v.len() - i,
            {
                if !(v[i].is_link_local() || v[i].is_auto()) {
                    proof {
                        let list = opt_addrs(*addrs)->0;
                        assert(list[i as int] == v@[i as int]@);
                        assert(!(list[i as int].is_link_local() || list[i as int].is_auto()));
                    }
                    return false;
                }
                i += 1;
            }
            true
        },
    }
}

pub(crate) fn is_some_and_empty(addrs: &Option<Vec<InterfaceIpAddr>>) -> (r: bool)
    ensures
        r == (opt_addrs(*addrs) is Some && opt_addrs(*addrs)->0.len() == 0),
{
    match addrs {
        Some(v) => v.len() == 0,
        None => false,
    }
}

pub(crate) fn has_addresses(addrs: &Option<Vec<InterfaceIpAddr>>) -> (r: bool)
    ensures
        r == (opt_addrs(*addrs) is Some && opt_addrs(*addrs)->0.len() > 0),
{
    match addrs {
        Some(v) => v.len() > 0,
        None => false,
    }
}

/// IPv4 configuration of an interface.
#[derive(Debug, PartialEq, Eq)]
pub struct InterfaceIpv4 {
    /// Whether the IPv4 stack is on. When off, the interface loses all its
    /// IPv4 addresses.
    pub enabled: bool,
    /// The fields that the user wrote.
    pub prop_list: Vec<IpProp>,
    /// Whether DHCPv4 is on.
    pub dhcp: Option<bool>,
    /// DHCPv4 client identifier.
    pub dhcp_client_id: Option<Dhcpv4ClientId>,
    /// IPv4 addresses. `None` keeps the running ones, an empty list
    /// removes them all.
    pub addresses: Option<Vec<InterfaceIpAddr>>,
    /// Whether to take the DNS resolver settings that DHCP hands out.
    pub auto_dns: Option<bool>,
    /// Whether to take the default gateway that DHCP hands out.
    pub auto_gateway: Option<bool>,
    /// Whether to take the routes that DHCP hands out.
    pub auto_routes: Option<bool>,
    /// The route table that holds the routes from DHCP.
    pub auto_table_id: Option<u32>,
    /// Whether, after applying, addresses beyond the desired ones may be
    /// found on the interface.
    pub allow_extra_address: bool,
    /// Metric of the routes from DHCP.
    pub auto_route_metric: Option<u32>,
    /// Whether to send the host name in the DHCP request.
    pub dhcp_send_hostname: Option<bool>,
    /// The host name to send in the DHCP request in place of the machine's.
    pub dhcp_custom_hostname: Option<String>,
    /// The DNS client configuration that this stack holds.
    pub dns: Option<DnsClientState>,
}

impl View for InterfaceIpv4 {
    type V = IpStack;

    open spec fn view(&self) -> IpStack {
        IpStack {
            enabled: self.enabled,
            prop_list: self.prop_list@,
            dhcp: self.dhcp,
            autoconf: None,
            dhcp_client_id: opt_client_id(self.dhcp_client_id),
            dhcp_duid: None,
            addr_gen_mode: None,
            addresses: opt_addrs(self.addresses),
            auto_dns: self.auto_dns,
            auto_gateway: self.auto_gateway,
            auto_routes: self.auto_routes,
            auto_table_id: self.auto_table_id,
            allow_extra_address: self.allow_extra_address,
            auto_route_metric: self.auto_route_metric,
            token: None,
            dhcp_send_hostname: self.dhcp_send_hostname,
            dhcp_custom_hostname: opt_text(self.dhcp_custom_hostname),
            dns: opt_dns(self.dns),
        }
    }
}

impl Default for InterfaceIpv4 {
    fn default() -> (r: Self)
        ensures
            r@ == IpStack::disabled(),
    {
        InterfaceIpv4 {
            enabled: false,
            prop_list: Vec::new(),
            dhcp: None,
            dhcp_client_id: None,
            addresses: None,
            dns: None,
            auto_dns: None,
            auto_gateway: None,
            auto_routes: None,
            auto_table_id: None,
            allow_extra_address: default_allow_extra_address(),
            auto_route_metric: None,
            dhcp_send_hostname: None,
            dhcp_custom_hostname: None,
        }
    }
}

impl Clone for InterfaceIpv4 {
    fn clone(&self) -> (r: Self)
        ensures
            r@ == self@,
    {
        InterfaceIpv4 {
            enabled: self.enabled,
            prop_list: clone_props(&self.prop_list),
            dhcp: self.dhcp,
            dhcp_client_id: match &self.dhcp_client_id {
                Some(c) => Some(c.clone()),
                None => None,
            },
            addresses: clone_opt_addrs(&self.addresses),
            dns: clone_opt_dns(&self.dns),
            auto_dns: self.auto_dns,
            auto_gateway: self.auto_gateway,
            auto_routes: self.auto_routes,
            auto_table_id: self.auto_table_id,
            allow_extra_address: self.allow_extra_address,
            auto_route_metric: self.auto_route_metric,
            dhcp_send_hostname: self.dhcp_send_hostname,
            dhcp_custom_hostname: clone_opt_text(&self.dhcp_custom_hostname),
        }
    }
}

impl InterfaceIpv4 {
    /// An IPv4 stack that is switched off.
    pub fn new() -> (r: Self)
        ensures
            r@ == IpStack::disabled(),
    {
        Self::default()
    }

    /// Whether the stack is on and DHCPv4 is on.
    pub fn is_auto(&self) -> (r: bool)
        ensures
            r == self@.is_auto(),
    {
        self.enabled && is_true(self.dhcp)
    }

    /// Whether the stack is on, is not dynamic, and has an address.
    pub fn is_static(&self) -> (r: bool)
        ensures
            r == self@.is_static(),
    {
        self.enabled && !self.is_auto() && has_addresses(&self.addresses)
    }

    /// Completes this desired stack from the running one.
    pub fn merge_ip(&mut self, current: &Self)
        ensures
            final(self)@ == merged_ip(old(self)@, current@),
    {
        if !props_contain(&self.prop_list, IpProp::Enabled) {
            self.enabled = current.enabled;
        }
        if self.dhcp.is_none() && self.enabled {
            self.dhcp = current.dhcp;
        }
        if current.is_auto() && current.addresses.is_some() && self.enabled && !self.is_auto()
            && is_ip_addrs_none_or_all_auto(&self.addresses) {
            match &current.addresses {
                Some(addrs) => {
                    self.addresses = Some(static_addresses(addrs));
                },
                None => {},
            }
        }
    }

    /// Reconciles this stack with a desired and the running one, and
    /// brings it to its normal form.
    pub fn special_merge(&mut self, desired: &Self, current: &Self)
        ensures
            final(self)@ == special_merged(old(self)@, desired@, current@, false),
    {
        if !props_contain(&desired.prop_list, IpProp::Enabled) {
            self.enabled = current.enabled;
        }
        if desired.dhcp.is_none() && self.enabled {
            self.dhcp = current.dhcp;
        }
        if current.is_auto() && current.addresses.is_some() && self.enabled && !self.is_auto()
            && is_ip_addrs_none_or_all_auto(&self.addresses) {
            match &current.addresses {
                Some(addrs) => {
                    self.addresses = Some(static_addresses(addrs));
                },
                None => {},
            }
        }
        let _ = self.sanitize(false);
    }

    /// Brings the stack to its normal form; a desired stack is checked
    /// first.
    pub fn sanitize(&mut self, is_desired: bool) -> (r: Result<(), NmstateError>)
        ensures
            final(self)@ == sanitize_outcome(old(self)@, false, is_desired).0,
            r is Ok <==> sanitize_outcome(old(self)@, false, is_desired).1,
            r is Err ==> r->Err_0.kind() == ErrorKind::InvalidArgument,
    {
        if is_desired {
            match &self.addresses {
                Some(addrs) => {
                    if !addrs_fit(addrs, false) {
                        return Err(
                            NmstateError::with_text(
                                ErrorKind::InvalidArgument,
                                "Got IPv6 address or invalid prefix length in ipv4 config section",
                            ),
                        );
                    }
                },
                None => {},
            }
        }
        match &self.addresses {
            Some(addrs) => {
                self.addresses = Some(keep_addresses(addrs, false));
            },
            None => {},
        }
        if self.enabled && is_some_and_empty(&self.addresses) {
            self.enabled = false;
        }
        if !self.enabled {
            self.dhcp = None;
            self.addresses = None;
        }
        if self.is_auto() {
            self.auto_dns = or_true(self.auto_dns);
            self.auto_routes = or_true(self.auto_routes);
            self.auto_gateway = or_true(self.auto_gateway);
        } else {
            self.auto_dns = None;
            self.auto_gateway = None;
            self.auto_routes = None;
            self.auto_table_id = None;
            self.auto_route_metric = None;
            self.dhcp_client_id = None;
            self.dhcp_send_hostname = None;
            self.dhcp_custom_hostname = None;
        }
        if is_false(self.dhcp_send_hostname) {
            self.dhcp_custom_hostname = None;
        }
        Ok(())
    }
}

} // verus!
