use crate::error::{ErrorKind, NmstateError};
use crate::ip::address::{opt_addrs, InterfaceIpAddr, InterfaceIpAddrView};
use crate::ip::model::IpStack;
use crate::ip::stack::{opt_client_id, opt_duid, opt_gen_mode, props_contain, InterfaceIpv4};
use crate::ip::stack6::InterfaceIpv6;
use crate::ip::types::{
    Dhcpv4ClientId, Dhcpv4ClientIdView, Dhcpv6Duid, Dhcpv6DuidView, IpProp, Ipv6AddrGenMode,
    Ipv6AddrGenModeView,
};
use crate::json::{json_map_contains_key, json_map_keys};
use crate::text::{opt_text, parse_unsigned_decimal, str_eq, to_chars, unsigned_decimal_value};
use vstd::prelude::*;
use vstd::std_specs::convert::FromSpecImpl;

verus! {

/// What the written form of an IP stack holds.
pub struct InterfaceIpView {
    pub enabled: Option<bool>,
    pub dhcp: Option<bool>,
    pub autoconf: Option<bool>,
    pub dhcp_client_id: Option<Dhcpv4ClientIdView>,
    pub dhcp_duid: Option<Dhcpv6DuidView>,
    pub addresses: Option<Seq<InterfaceIpAddrView>>,
    pub auto_dns: Option<bool>,
    pub auto_gateway: Option<bool>,
    pub auto_routes: Option<bool>,
    pub auto_table_id: Option<u32>,
    pub auto_route_metric: Option<u32>,
    pub addr_gen_mode: Option<Ipv6AddrGenModeView>,
    pub allow_extra_address: bool,
    pub token: Option<Seq<char>>,
    pub dhcp_send_hostname: Option<bool>,
    pub dhcp_custom_hostname: Option<Seq<char>>,
}

/// The written form of an IP stack of either family: every field as the
/// schema has it, left out where the user wrote nothing.
#[derive(Debug, PartialEq, Eq)]
pub struct InterfaceIp {
    pub enabled: Option<bool>,
    pub dhcp: Option<bool>,
    pub autoconf: Option<bool>,
    pub dhcp_client_id: Option<Dhcpv4ClientId>,
    pub dhcp_duid: Option<Dhcpv6Duid>,
    pub addresses: Option<Vec<InterfaceIpAddr>>,
    pub auto_dns: Option<bool>,
    pub auto_gateway: Option<bool>,
    pub auto_routes: Option<bool>,
    pub auto_table_id: Option<u32>,
    pub auto_route_metric: Option<u32>,
    pub addr_gen_mode: Option<Ipv6AddrGenMode>,
    pub allow_extra_address: bool,
    pub token: Option<String>,
    pub dhcp_send_hostname: Option<bool>,
    pub dhcp_custom_hostname: Option<String>,
}

impl View for InterfaceIp {
    type V = InterfaceIpView;

    open spec fn view(&self) -> InterfaceIpView {
        InterfaceIpView {
            enabled: self.enabled,
            dhcp: self.dhcp,
            autoconf: self.autoconf,
            dhcp_client_id: opt_client_id(self.dhcp_client_id),
            dhcp_duid: opt_duid(self.dhcp_duid),
            addresses: opt_addrs(self.addresses),
            auto_dns: self.auto_dns,
            auto_gateway: self.auto_gateway,
            auto_routes: self.auto_routes,
            auto_table_id: self.auto_table_id,
            auto_route_metric: self.auto_route_metric,
            addr_gen_mode: opt_gen_mode(self.addr_gen_mode),
            allow_extra_address: self.allow_extra_address,
            token: opt_text(self.token),
            dhcp_send_hostname: self.dhcp_send_hostname,
            dhcp_custom_hostname: opt_text(self.dhcp_custom_hostname),
        }
    }
}

/// `b`, or `false` where nothing is stated.
pub open spec fn or_false(o: Option<bool>) -> bool {
    match o {
        Some(b) => b,
        None => false,
    }
}

/// The IPv4 stack that a written form states; what only an IPv6 stack
/// has is dropped.
pub open spec fn ipv4_of(ip: InterfaceIpView, prop_list: Seq<IpProp>) -> IpStack {
    IpStack {
        enabled: or_false(ip.enabled),
        prop_list,
        dhcp: ip.dhcp,
        autoconf: None,
        dhcp_client_id: ip.dhcp_client_id,
        dhcp_duid: None,
        addr_gen_mode: None,
        addresses: ip.addresses,
        auto_dns: ip.auto_dns,
        auto_gateway: ip.auto_gateway,
        auto_routes: ip.auto_routes,
        auto_table_id: ip.auto_table_id,
        allow_extra_address: ip.allow_extra_address,
        auto_route_metric: ip.auto_route_metric,
        token: None,
        dhcp_send_hostname: ip.dhcp_send_hostname,
        dhcp_custom_hostname: ip.dhcp_custom_hostname,
        dns: None,
    }
}

/// The IPv6 stack that a written form states; what only an IPv4 stack
/// has is dropped.
pub open spec fn ipv6_of(ip: InterfaceIpView, prop_list: Seq<IpProp>) -> IpStack {
    IpStack {
        enabled: or_false(ip.enabled),
        prop_list,
        dhcp: ip.dhcp,
        autoconf: ip.autoconf,
        dhcp_client_id: None,
        dhcp_duid: ip.dhcp_duid,
        addr_gen_mode: ip.addr_gen_mode,
        addresses: ip.addresses,
        auto_dns: ip.auto_dns,
        auto_gateway: ip.auto_gateway,
        auto_routes: ip.auto_routes,
        auto_table_id: ip.auto_table_id,
        allow_extra_address: ip.allow_extra_address,
        auto_route_metric: ip.auto_route_metric,
        token: ip.token,
        dhcp_send_hostname: ip.dhcp_send_hostname,
        dhcp_custom_hostname: ip.dhcp_custom_hostname,
        dns: None,
    }
}

/// The written form of a stack: whether the stack is on is written only
/// where the user wrote it; the DNS settings that the stack holds are
/// not written.
pub open spec fn written(s: IpStack) -> InterfaceIpView {
    InterfaceIpView {
        enabled: if s.states(IpProp::Enabled) {
            Some(s.enabled)
        } else {
            None
        },
        dhcp: s.dhcp,
        autoconf: s.autoconf,
        dhcp_client_id: s.dhcp_client_id,
        dhcp_duid: s.dhcp_duid,
        addresses: s.addresses,
        auto_dns: s.auto_dns,
        auto_gateway: s.auto_gateway,
        auto_routes: s.auto_routes,
        auto_table_id: s.auto_table_id,
        auto_route_metric: s.auto_route_metric,
        addr_gen_mode: s.addr_gen_mode,
        allow_extra_address: s.allow_extra_address,
        token: s.token,
        dhcp_send_hostname: s.dhcp_send_hostname,
        dhcp_custom_hostname: s.dhcp_custom_hostname,
    }
}

/// A written form that is read as an IPv4 stack and written again is the
/// same, where it states nothing that only an IPv6 stack has, and the
/// fields that the user wrote include `enabled` exactly where the form
/// states it.
pub proof fn law_ipv4_round_trip(ip: InterfaceIpView, prop_list: Seq<IpProp>)
    requires
        prop_list.contains(IpProp::Enabled) <==> ip.enabled is Some,
        ip.autoconf is None,
        ip.dhcp_duid is None,
        ip.addr_gen_mode is None,
        ip.token is None,
    ensures
        written(ipv4_of(ip, prop_list)) == ip,
{
}

/// A written form that is read as an IPv6 stack and written again is the
/// same, where it states no DHCPv4 client identifier, and the fields that
/// the user wrote include `enabled` exactly where the form states it.
pub proof fn law_ipv6_round_trip(ip: InterfaceIpView, prop_list: Seq<IpProp>)
    requires
        prop_list.contains(IpProp::Enabled) <==> ip.enabled is Some,
        ip.dhcp_client_id is None,
    ensures
        written(ipv6_of(ip, prop_list)) == ip,
{
}

impl InterfaceIpv4 {
    /// Checks the fields that the user wrote for an IPv4 stack: a form
    /// that states `autoconf` or `dhcp-duid` is no IPv4 stack.
    pub fn check_prop_list(prop_list: &Vec<IpProp>) -> (r: Result<(), NmstateError>)
        ensures
            r is Err <==> prop_list@.contains(IpProp::Autoconf) || prop_list@.contains(
                IpProp::DhcpDuid,
            ),
            r is Err ==> r->Err_0.kind() == ErrorKind::InvalidArgument,
    {
        if props_contain(prop_list, IpProp::Autoconf) {
            return Err(
                NmstateError::with_text(
                    ErrorKind::InvalidArgument,
                    "autoconf is not allowed for IPv4",
                ),
            );
        }
        if props_contain(prop_list, IpProp::DhcpDuid) {
            return Err(
                NmstateError::with_text(
                    ErrorKind::InvalidArgument,
                    "dhcp-duid is not allowed for IPv4",
                ),
            );
        }
        Ok(())
    }

    /// The stack that a written form states, with the fields that the
    /// user wrote. A form that states `autoconf` or `dhcp-duid` is no IPv4
    /// stack.
    pub fn from_parsed(ip: InterfaceIp, prop_list: Vec<IpProp>) -> (r: Result<Self, NmstateError>)
        ensures
            if prop_list@.contains(IpProp::Autoconf) || prop_list@.contains(IpProp::DhcpDuid) {
                r is Err && r->Err_0.kind() == ErrorKind::InvalidArgument
            } else {
                r is Ok && r->Ok_0@ == ipv4_of(ip@, prop_list@)
            },
    {
        match Self::check_prop_list(&prop_list) {
            Ok(()) => {},
            Err(e) => {
                return Err(e);
            },
        }
        let mut ret = Self::from(ip);
        ret.prop_list = prop_list;
        Ok(ret)
    }
}

impl InterfaceIpv6 {
    /// Checks the fields that the user wrote for an IPv6 stack: a form
    /// that states `dhcp-client-id` is no IPv6 stack.
    pub fn check_prop_list(prop_list: &Vec<IpProp>) -> (r: Result<(), NmstateError>)
        ensures
            r is Err <==> prop_list@.contains(IpProp::DhcpClientId),
            r is Err ==> r->Err_0.kind() == ErrorKind::InvalidArgument,
    {
        if props_contain(prop_list, IpProp::DhcpClientId) {
            return Err(
                NmstateError::with_text(
                    ErrorKind::InvalidArgument,
                    "dhcp-client-id is not allowed for IPv6",
                ),
            );
        }
        Ok(())
    }

    /// The stack that a written form states, with the fields that the
    /// user wrote. A form that states `dhcp-client-id` is no IPv6 stack.
    pub fn from_parsed(ip: InterfaceIp, prop_list: Vec<IpProp>) -> (r: Result<Self, NmstateError>)
        ensures
            if prop_list@.contains(IpProp::DhcpClientId) {
                r is Err && r->Err_0.kind() == ErrorKind::InvalidArgument
            } else {
                r is Ok && r->Ok_0@ == ipv6_of(ip@, prop_list@)
            },
    {
        match Self::check_prop_list(&prop_list) {
            Ok(()) => {},
            Err(e) => {
                return Err(e);
            },
        }
        let mut ret = Self::from(ip);
        ret.prop_list = prop_list;
        Ok(ret)
    }
}

impl From<InterfaceIp> for InterfaceIpv4 {
    /// The stack that a written form states, with no field marked as
    /// written by the user.
    fn from(ip: InterfaceIp) -> (r: Self)
        ensures
            r@ == ipv4_of(ip@, seq![]),
    {
        InterfaceIpv4 {
            enabled: match ip.enabled {
                Some(b) => b,
                None => false,
            },
            prop_list: Vec::new(),
            dhcp: ip.dhcp,
            addresses: ip.addresses,
            dhcp_client_id: ip.dhcp_client_id,
            auto_dns: ip.auto_dns,
            auto_routes: ip.auto_routes,
            auto_gateway: ip.auto_gateway,
            auto_table_id: ip.auto_table_id,
            allow_extra_address: ip.allow_extra_address,
            auto_route_metric: ip.auto_route_metric,
            dhcp_send_hostname: ip.dhcp_send_hostname,
            dhcp_custom_hostname: ip.dhcp_custom_hostname,
            dns: None,
        }
    }
}

impl FromSpecImpl<InterfaceIp> for InterfaceIpv4 {
    open spec fn obeys_from_spec() -> bool {
        false
    }

    open spec fn from_spec(ip: InterfaceIp) -> Self {
        choose|r: InterfaceIpv4| r@ == ipv4_of(ip@, seq![])
    }
}

impl From<InterfaceIp> for InterfaceIpv6 {
    /// The stack that a written form states, with no field marked as
    /// written by the user.
    fn from(ip: InterfaceIp) -> (r: Self)
        ensures
            r@ == ipv6_of(ip@, seq![]),
    {
        InterfaceIpv6 {
            enabled: match ip.enabled {
                Some(b) => b,
                None => false,
            },
            prop_list: Vec::new(),
            dhcp: ip.dhcp,
            autoconf: ip.autoconf,
            addresses: ip.addresses,
            dhcp_duid: ip.dhcp_duid,
            auto_dns: ip.auto_dns,
            auto_routes: ip.auto_routes,
            auto_gateway: ip.auto_gateway,
            auto_table_id: ip.auto_table_id,
            addr_gen_mode: ip.addr_gen_mode,
            allow_extra_address: ip.allow_extra_address,
            auto_route_metric: ip.auto_route_metric,
            token: ip.token,
            dhcp_send_hostname: ip.dhcp_send_hostname,
            dhcp_custom_hostname: ip.dhcp_custom_hostname,
            dns: None,
        }
    }
}

impl FromSpecImpl<InterfaceIp> for InterfaceIpv6 {
    open spec fn obeys_from_spec() -> bool {
        false
    }

    open spec fn from_spec(ip: InterfaceIp) -> Self {
        choose|r: InterfaceIpv6| r@ == ipv6_of(ip@, seq![])
    }
}

impl From<InterfaceIpv4> for InterfaceIp {
    /// The written form of an IPv4 stack.
    fn from(ip: InterfaceIpv4) -> (r: Self)
        ensures
            r@ == written(ip@),
    {
        let enabled = if props_contain(&ip.prop_list, IpProp::Enabled) {
            Some(ip.enabled)
        } else {
            None
        };
        InterfaceIp {
            enabled,
            dhcp: ip.dhcp,
            autoconf: None,
            addresses: ip.addresses,
            dhcp_client_id: ip.dhcp_client_id,
            dhcp_duid: None,
            auto_dns: ip.auto_dns,
            auto_routes: ip.auto_routes,
            auto_gateway: ip.auto_gateway,
            auto_table_id: ip.auto_table_id,
            addr_gen_mode: None,
            allow_extra_address: ip.allow_extra_address,
            auto_route_metric: ip.auto_route_metric,
            token: None,
            dhcp_send_hostname: ip.dhcp_send_hostname,
            dhcp_custom_hostname: ip.dhcp_custom_hostname,
        }
    }
}

impl FromSpecImpl<InterfaceIpv4> for InterfaceIp {
    open spec fn obeys_from_spec() -> bool {
        true
    }

    open spec fn from_spec(ip: InterfaceIpv4) -> Self {
        InterfaceIp {
            enabled: if ip.prop_list@.contains(IpProp::Enabled) {
                Some(ip.enabled)
            } else {
                None
            },
            dhcp: ip.dhcp,
            autoconf: None,
            addresses: ip.addresses,
            dhcp_client_id: ip.dhcp_client_id,
            dhcp_duid: None,
            auto_dns: ip.auto_dns,
            auto_routes: ip.auto_routes,
            auto_gateway: ip.auto_gateway,
            auto_table_id: ip.auto_table_id,
            addr_gen_mode: None,
            allow_extra_address: ip.allow_extra_address,
            auto_route_metric: ip.auto_route_metric,
            token: None,
            dhcp_send_hostname: ip.dhcp_send_hostname,
            dhcp_custom_hostname: ip.dhcp_custom_hostname,
        }
    }
}

impl From<InterfaceIpv6> for InterfaceIp {
    /// The written form of an IPv6 stack.
    fn from(ip: InterfaceIpv6) -> (r: Self)
        ensures
            r@ == written(ip@),
    {
        let enabled = if props_contain(&ip.prop_list, IpProp::Enabled) {
            Some(ip.enabled)
        } else {
            None
        };
        InterfaceIp {
            enabled,
            dhcp: ip.dhcp,
            autoconf: ip.autoconf,
            addresses: ip.addresses,
            dhcp_client_id: None,
            dhcp_duid: ip.dhcp_duid,
            auto_dns: ip.auto_dns,
            auto_routes: ip.auto_routes,
            auto_gateway: ip.auto_gateway,
            auto_table_id: ip.auto_table_id,
            addr_gen_mode: ip.addr_gen_mode,
            allow_extra_address: ip.allow_extra_address,
            auto_route_metric: ip.auto_route_metric,
            token: ip.token,
            dhcp_send_hostname: ip.dhcp_send_hostname,
            dhcp_custom_hostname: ip.dhcp_custom_hostname,
        }
    }
}

impl FromSpecImpl<InterfaceIpv6> for InterfaceIp {
    open spec fn obeys_from_spec() -> bool {
        true
    }

    open spec fn from_spec(ip: InterfaceIpv6) -> Self {
        InterfaceIp {
            enabled: if ip.prop_list@.contains(IpProp::Enabled) {
                Some(ip.enabled)
            } else {
                None
            },
            dhcp: ip.dhcp,
            autoconf: ip.autoconf,
            addresses: ip.addresses,
            dhcp_client_id: None,
            dhcp_duid: ip.dhcp_duid,
            auto_dns: ip.auto_dns,
            auto_routes: ip.auto_routes,
            auto_gateway: ip.auto_gateway,
            auto_table_id: ip.auto_table_id,
            addr_gen_mode: ip.addr_gen_mode,
            allow_extra_address: ip.allow_extra_address,
            auto_route_metric: ip.auto_route_metric,
            token: ip.token,
            dhcp_send_hostname: ip.dhcp_send_hostname,
            dhcp_custom_hostname: ip.dhcp_custom_hostname,
        }
    }
}

/// `p` where the keys hold `key`, else nothing.
pub open spec fn prop_if(keys: Set<Seq<char>>, key: Seq<char>, p: IpProp) -> Seq<IpProp> {
    if keys.contains(key) {
        seq![p]
    } else {
        seq![]
    }
}

/// The fields of an IP stack that an object with the keys `keys` states,
/// in the order of the schema.
pub open spec fn prop_list_of(keys: Set<Seq<char>>) -> Seq<IpProp> {
    prop_if(keys, "enabled"@, IpProp::Enabled) + prop_if(keys, "dhcp"@, IpProp::Dhcp) + prop_if(
        keys,
        "autoconf"@,
        IpProp::Autoconf,
    ) + prop_if(keys, "dhcp-client-id"@, IpProp::DhcpClientId) + prop_if(
        keys,
        "dhcp-duid"@,
        IpProp::DhcpDuid,
    ) + prop_if(keys, "address"@, IpProp::Addresses) + prop_if(keys, "auto-dns"@, IpProp::AutoDns)
        + prop_if(keys, "auto-gateway"@, IpProp::AutoGateway) + prop_if(
        keys,
        "auto-routes"@,
        IpProp::AutoRoutes,
    ) + prop_if(keys, "auto-route-table-id"@, IpProp::AutoTableId) + prop_if(
        keys,
        "addr-gen-mode"@,
        IpProp::AddrGenMode,
    ) + prop_if(keys, "dhcp-send-hostname"@, IpProp::DhcpSendHostname) + prop_if(
        keys,
        "dhcp-custom-hostname"@,
        IpProp::DhcpCustomHostname,
    )
}

fn push_prop_if(
    ret: &mut Vec<IpProp>,
    map: &serde_json::Map<String, serde_json::Value>,
    key: &str,
    p: IpProp,
)
    ensures
        final(ret)@ == old(ret)@ + prop_if(json_map_keys(*map), key@, p),
{
    let ghost before = ret@;
    if json_map_contains_key(map, key) {
        ret.push(p);
        assert(ret@ =~= before + seq![p]);
    } else {
        assert(ret@ =~= before + Seq::<IpProp>::empty());
    }
}

/// The fields of an IP stack that a JSON object states.
pub fn get_ip_prop_list(map: &serde_json::Map<String, serde_json::Value>) -> (r: Vec<IpProp>)
    ensures
        r@ == prop_list_of(json_map_keys(*map)),
{
    let mut ret: Vec<IpProp> = Vec::new();
    let ghost keys = json_map_keys(*map);
    push_prop_if(&mut ret, map, "enabled", IpProp::Enabled);
    assert(ret@ =~= prop_if(keys, "enabled"@, IpProp::Enabled));
    push_prop_if(&mut ret, map, "dhcp", IpProp::Dhcp);
    push_prop_if(&mut ret, map, "autoconf", IpProp::Autoconf);
    push_prop_if(&mut ret, map, "dhcp-client-id", IpProp::DhcpClientId);
    push_prop_if(&mut ret, map, "dhcp-duid", IpProp::DhcpDuid);
    push_prop_if(&mut ret, map, "address", IpProp::Addresses);
    push_prop_if(&mut ret, map, "auto-dns", IpProp::AutoDns);
    push_prop_if(&mut ret, map, "auto-gateway", IpProp::AutoGateway);
    push_prop_if(&mut ret, map, "auto-routes", IpProp::AutoRoutes);
    push_prop_if(&mut ret, map, "auto-route-table-id", IpProp::AutoTableId);
    push_prop_if(&mut ret, map, "addr-gen-mode", IpProp::AddrGenMode);
    push_prop_if(&mut ret, map, "dhcp-send-hostname", IpProp::DhcpSendHostname);
    push_prop_if(&mut ret, map, "dhcp-custom-hostname", IpProp::DhcpCustomHostname);
    ret
}

/// The truth value that a text states in place of a JSON boolean.
pub open spec fn bool_of_text(s: Seq<char>) -> Option<bool> {
    if s == "true"@ {
        Some(true)
    } else if s == "false"@ {
        Some(false)
    } else {
        None
    }
}

/// Reads a truth value that is written as a string.
pub fn parse_bool_text(s: &str) -> (r: Option<bool>)
    ensures
        r == bool_of_text(s@),
{
    if str_eq(s, "true") {
        Some(true)
    } else if str_eq(s, "false") {
        Some(false)
    } else {
        None
    }
}

/// The number below `2^32` that a text states in decimal.
pub open spec fn u32_of_text(s: Seq<char>) -> Option<u32> {
    match unsigned_decimal_value(s) {
        Some(v) => if v <= u32::MAX {
            Some(v as u32)
        } else {
            None
        },
        None => None,
    }
}

/// Reads an unsigned number of 32 bits that is written as a string.
pub fn parse_u32_text(s: &str) -> (r: Option<u32>)
    ensures
        r == u32_of_text(s@),
{
    let chars = to_chars(s);
    match parse_unsigned_decimal(chars.as_slice(), 0xffff_ffff) {
        Some(v) => Some(v as u32),
        None => None,
    }
}

/// The number below 256 that a text states in decimal.
pub open spec fn u8_of_text(s: Seq<char>) -> Option<u8> {
    match unsigned_decimal_value(s) {
        Some(v) => if v <= u8::MAX {
            Some(v as u8)
        } else {
            None
        },
        None => None,
    }
}

/// Reads an unsigned number of 8 bits that is written as a string.
pub fn parse_u8_text(s: &str) -> (r: Option<u8>)
    ensures
        r == u8_of_text(s@),
{
    let chars = to_chars(s);
    match parse_unsigned_decimal(chars.as_slice(), 255) {
        Some(v) => Some(v as u8),
        None => None,
    }
}

} // verus!
