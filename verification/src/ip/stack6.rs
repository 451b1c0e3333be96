use crate::dns_state::DnsClientState;
use crate::error::{ErrorKind, NmstateError};
use crate::ip::address::{clone_opt_addrs, opt_addrs, InterfaceIpAddr};
use crate::ip::model::{merged_ip, normalized, sanitize_outcome, special_merged, IpStack};
use crate::ip::stack::{
    addrs_fit, clone_opt_dns, clone_props, default_allow_extra_address, has_addresses, is_false,
    is_ip_addrs_none_or_all_auto, is_some_and_empty, is_true, keep_addresses, opt_dns, opt_duid,
    opt_gen_mode, or_true, props_contain, static_addresses,
};
use crate::ip::token::{is_token_set, sanitize_ipv6_token_to_string};
use crate::ip::types::{Dhcpv6Duid, IpProp, Ipv6AddrGenMode};
use crate::text::{clone_opt_text, opt_text};
use vstd::prelude::*;

verus! {

/// IPv6 configuration of an interface.
#[derive(Debug, PartialEq, Eq)]
pub struct InterfaceIpv6 {
    /// Whether the IPv6 stack is on. When off, the interface loses all its
    /// IPv6 addresses, the link-local one too.
    pub enabled: bool,
    /// The fields that the user wrote.
    pub prop_list: Vec<IpProp>,
    /// Whether DHCPv6 is on.
    pub dhcp: Option<bool>,
    /// DHCPv6 unique identifier.
    pub dhcp_duid: Option<Dhcpv6Duid>,
    /// Whether addresses are configured from router advertisements.
    pub autoconf: Option<bool>,
    /// How the interface identifier of an address is generated.
    pub addr_gen_mode: Option<Ipv6AddrGenMode>,
    /// IPv6 addresses. `None` keeps the running ones, an empty list
    /// removes them all.
    pub addresses: Option<Vec<InterfaceIpAddr>>,
    /// Whether to take the DNS resolver settings that DHCPv6 or router
    /// advertisements hand out.
    pub auto_dns: Option<bool>,
    /// Whether to take the default gateway from router advertisements.
    pub auto_gateway: Option<bool>,
    /// Whether to take the routes from router advertisements.
    pub auto_routes: Option<bool>,
    /// The route table that holds the routes from router advertisements.
    pub auto_table_id: Option<u32>,
    /// Whether, after applying, addresses beyond the desired ones may be
    /// found on the interface.
    pub allow_extra_address: bool,
    /// Metric of the routes from router advertisements.
    pub auto_route_metric: Option<u32>,
    /// Identifier token: the last 64 bits of every address that is
    /// configured from router advertisements.
    pub token: Option<String>,
    /// Whether to send the host name in the DHCP request.
    pub dhcp_send_hostname: Option<bool>,
    /// The host name to send in the DHCP request in place of the machine's.
    pub dhcp_custom_hostname: Option<String>,
    /// The DNS client configuration that this stack holds.
    pub dns: Option<DnsClientState>,
}

impl View for InterfaceIpv6 {
    type V = IpStack;

    open spec fn view(&self) -> IpStack {
        IpStack {
            enabled: self.enabled,
            prop_list: self.prop_list@,
            dhcp: self.dhcp,
            autoconf: self.autoconf,
            dhcp_client_id: None,
            dhcp_duid: opt_duid(self.dhcp_duid),
            addr_gen_mode: opt_gen_mode(self.addr_gen_mode),
            addresses: opt_addrs(self.addresses),
            auto_dns: self.auto_dns,
            auto_gateway: self.auto_gateway,
            auto_routes: self.auto_routes,
            auto_table_id: self.auto_table_id,
            allow_extra_address: self.allow_extra_address,
            auto_route_metric: self.auto_route_metric,
            token: opt_text(self.token),
            dhcp_send_hostname: self.dhcp_send_hostname,
            dhcp_custom_hostname: opt_text(self.dhcp_custom_hostname),
            dns: opt_dns(self.dns),
        }
    }
}

impl Default for InterfaceIpv6 {
    fn default() -> (r: Self)
        ensures
            r@ == IpStack::disabled(),
    {
        InterfaceIpv6 {
            enabled: false,
            prop_list: Vec::new(),
            dhcp: None,
            dhcp_duid: None,
            autoconf: None,
            addr_gen_mode: None,
            addresses: None,
            dns: None,
            auto_dns: None,
            auto_gateway: None,
            auto_routes: None,
            auto_table_id: None,
            allow_extra_address: default_allow_extra_address(),
            auto_route_metric: None,
            token: None,
            dhcp_send_hostname: None,
            dhcp_custom_hostname: None,
        }
    }
}

impl Clone for InterfaceIpv6 {
    fn clone(&self) -> (r: Self)
        ensures
            r@ == self@,
    {
        InterfaceIpv6 {
            enabled: self.enabled,
            prop_list: clone_props(&self.prop_list),
            dhcp: self.dhcp,
            dhcp_duid: match &self.dhcp_duid {
                Some(c) => Some(c.clone()),
                None => None,
            },
            autoconf: self.autoconf,
            addr_gen_mode: match &self.addr_gen_mode {
                Some(c) => Some(c.clone()),
                None => None,
            },
            addresses: clone_opt_addrs(&self.addresses),
            dns: clone_opt_dns(&self.dns),
            auto_dns: self.auto_dns,
            auto_gateway: self.auto_gateway,
            auto_routes: self.auto_routes,
            auto_table_id: self.auto_table_id,
            allow_extra_address: self.allow_extra_address,
            auto_route_metric: self.auto_route_metric,
            token: clone_opt_text(&self.token),
            dhcp_send_hostname: self.dhcp_send_hostname,
            dhcp_custom_hostname: clone_opt_text(&self.dhcp_custom_hostname),
        }
    }
}

impl InterfaceIpv6 {
    /// An IPv6 stack that is switched off.
    pub fn new() -> (r: Self)
        ensures
            r@ == IpStack::disabled(),
    {
        Self::default()
    }

    /// Whether the stack is on and DHCPv6 or autoconf is on.
    pub fn is_auto(&self) -> (r: bool)
        ensures
            r == self@.is_auto(),
    {
        self.enabled && (is_true(self.dhcp) || is_true(self.autoconf))
    }

    /// Whether the stack is on, is not dynamic, and has an address.
    pub fn is_static(&self) -> (r: bool)
        ensures
            r == self@.is_static(),
    {
        self.enabled && !self.is_auto() && has_addresses(&self.addresses)
    }

    /// Brings the stack to its normal form; a desired stack is checked
    /// first.
    pub fn sanitize(&mut self, is_desired: bool) -> (r: Result<(), NmstateError>)
        ensures
            final(self)@ == sanitize_outcome(old(self)@, true, is_desired).0,
            r is Ok <==> sanitize_outcome(old(self)@, true, is_desired).1,
            r is Err ==> r->Err_0.kind() == ErrorKind::InvalidArgument,
    {
        if is_desired {
            match &self.addresses {
                Some(addrs) => {
                    if !addrs_fit(addrs, true) {
                        return Err(
                            NmstateError::with_text(
                                ErrorKind::InvalidArgument,
                                "Got IPv4 address or invalid prefix length in ipv6 config section",
                            ),
                        );
                    }
                },
                None => {},
            }
        }
        match &self.addresses {
            Some(addrs) => {
                self.addresses = Some(keep_addresses(addrs, true));
            },
            None => {},
        }
        if self.enabled && is_some_and_empty(&self.addresses) {
            self.enabled = false;
        }
        if !self.enabled {
            self.dhcp = None;
            self.autoconf = None;
            self.addresses = None;
        }
        if self.is_auto() {
            self.auto_dns = or_true(self.auto_dns);
            self.auto_routes = or_true(self.auto_routes);
            self.auto_gateway = or_true(self.auto_gateway);
        } else {
            self.auto_dns = None;
            self.auto_gateway = None;
            self.auto_routes = None;
            self.auto_table_id = None;
            self.auto_route_metric = None;
            self.dhcp_duid = None;
            self.dhcp_send_hostname = None;
            self.dhcp_custom_hostname = None;
        }
        if is_false(self.dhcp_send_hostname) {
            self.dhcp_custom_hostname = None;
        }
        let refused = match &self.token {
            Some(token) => is_desired && is_false(self.autoconf) && is_token_set(token.as_str()),
            None => false,
        };
        assert(self@ == normalized(old(self)@, true));
        if refused {
            return Err(
                NmstateError::with_text(
                    ErrorKind::InvalidArgument,
                    "Desired IPv6 token cannot be applied with IPv6 autoconf disabled, \
                     you may remove IPv6 token by setting as empty string or `::`",
                ),
            );
        }
        match self.token.as_mut() {
            Some(token) => sanitize_ipv6_token_to_string(token),
            None => Ok(()),
        }
    }

    /// Reconciles this stack with a desired and the running one, and
    /// brings it to its normal form.
    pub fn special_merge(&mut self, desired: &Self, current: &Self)
        ensures
            final(self)@ == special_merged(old(self)@, desired@, current@, true),
    {
        if !props_contain(&desired.prop_list, IpProp::Enabled) {
            self.enabled = current.enabled;
        }
        if desired.dhcp.is_none() && self.enabled {
            self.dhcp = current.dhcp;
        }
        if desired.autoconf.is_none() && self.enabled {
            self.autoconf = current.autoconf;
        }
        if current.is_auto() && current.addresses.is_some() && self.enabled && !self.is_auto()
            && is_ip_addrs_none_or_all_auto(&self.addresses) {
            match &current.addresses {
                Some(addrs) => {
                    self.addresses = Some(static_addresses(addrs));
                },
                None => {},
            }
        }
        let _ = self.sanitize(false);
    }

    /// Completes this desired stack from the running one.
    pub fn merge_ip(&mut self, current: &Self)
        ensures
            final(self)@ == merged_ip(old(self)@, current@),
    {
        if !props_contain(&self.prop_list, IpProp::Enabled) {
            self.enabled = current.enabled;
        }
        if self.dhcp.is_none() && self.enabled {
            self.dhcp = current.dhcp;
        }
        if self.autoconf.is_none() && self.enabled {
            self.autoconf = current.autoconf;
        }
        if current.is_auto() && current.addresses.is_some() && self.enabled && !self.is_auto()
            && is_ip_addrs_none_or_all_auto(&self.addresses) {
            match &current.addresses {
                Some(addrs) => {
                    self.addresses = Some(static_addresses(addrs));
                },
                None => {},
            }
        }
    }
}

} // verus!
