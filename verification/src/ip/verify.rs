use crate::error::{ErrorKind, NmstateError};
use crate::ip::address::{addrs_view, opt_addrs, InterfaceIpAddr, InterfaceIpAddrView};
use crate::ip::model::IpStack;
use crate::ip::stack::{opt_client_id, opt_duid, opt_gen_mode, InterfaceIpv4};
use crate::ip::stack6::InterfaceIpv6;
use crate::ip::types::{Dhcpv4ClientId, Dhcpv6Duid, Ipv6AddrGenMode};
use crate::text::{opt_text, str_eq};
use vstd::prelude::*;

verus! {

/// Whether what is wanted, if anything, is what there is.
pub open spec fn opt_matches<T>(want: Option<T>, have: Option<T>) -> bool {
    want is Some ==> want == have
}

/// Whether two entries name the same address with the same prefix.
pub open spec fn same_addr(a: InterfaceIpAddrView, b: InterfaceIpAddrView) -> bool {
    a.ip == b.ip && a.prefix_length == b.prefix_length
}

/// Whether a list holds the address `a`.
pub open spec fn has_addr(list: Seq<InterfaceIpAddrView>, a: InterfaceIpAddrView) -> bool {
    exists|i: int| 0 <= i < list.len() && same_addr(#[trigger] list[i], a)
}

/// Whether every address of `a` is in `b`; where `skip_auto` is set,
/// addresses of `a` that were learned from the network need not be.
pub open spec fn all_in(a: Seq<InterfaceIpAddrView>, b: Seq<InterfaceIpAddrView>, skip_auto: bool)
    -> bool {
    forall|i: int|
        0 <= i < a.len() ==> (skip_auto && (#[trigger] a[i]).is_auto()) || has_addr(b, a[i])
}

/// The list `o`, or the empty list where it is left out.
pub open spec fn addrs_or_empty(o: Option<Seq<InterfaceIpAddrView>>) -> Seq<InterfaceIpAddrView> {
    match o {
        Some(h) => h,
        None => seq![],
    }
}

/// Whether the addresses found satisfy the addresses wanted: each wanted
/// address is found; and unless extra addresses are allowed, each address
/// found that was not learned from the network is wanted.
pub open spec fn addresses_verified(want: IpStack, have: IpStack) -> bool {
    want.addresses is Some ==> all_in(want.addresses->0, addrs_or_empty(have.addresses), false)
        && (!want.allow_extra_address ==> all_in(
        addrs_or_empty(have.addresses),
        want.addresses->0,
        true,
    ))
}

/// Whether the stack found satisfies the stack wanted: they are both on
/// or both off, each field that is wanted is found the same, and the
/// addresses found satisfy those wanted.
pub open spec fn stack_verified(want: IpStack, have: IpStack) -> bool {
    &&& want.enabled == have.enabled
    &&& opt_matches(want.dhcp, have.dhcp)
    &&& opt_matches(want.autoconf, have.autoconf)
    &&& opt_matches(want.dhcp_client_id, have.dhcp_client_id)
    &&& opt_matches(want.dhcp_duid, have.dhcp_duid)
    &&& opt_matches(want.addr_gen_mode, have.addr_gen_mode)
    &&& opt_matches(want.auto_dns, have.auto_dns)
    &&& opt_matches(want.auto_gateway, have.auto_gateway)
    &&& opt_matches(want.auto_routes, have.auto_routes)
    &&& opt_matches(want.auto_table_id, have.auto_table_id)
    &&& opt_matches(want.auto_route_metric, have.auto_route_metric)
    &&& opt_matches(want.token, have.token)
    &&& opt_matches(want.dhcp_send_hostname, have.dhcp_send_hostname)
    &&& opt_matches(want.dhcp_custom_hostname, have.dhcp_custom_hostname)
    &&& addresses_verified(want, have)
}

fn bool_matches(want: Option<bool>, have: Option<bool>) -> (r: bool)
    ensures
        r == opt_matches(want, have),
{
    match want {
        Some(w) => match have {
            Some(h) => w == h,
            None => false,
        },
        None => true,
    }
}

fn u32_matches(want: Option<u32>, have: Option<u32>) -> (r: bool)
    ensures
        r == opt_matches(want, have),
{
    match want {
        Some(w) => match have {
            Some(h) => w == h,
            None => false,
        },
        None => true,
    }
}

fn text_matches(want: &Option<String>, have: &Option<String>) -> (r: bool)
    ensures
        r == opt_matches(opt_text(*want), opt_text(*have)),
{
    match want {
        Some(w) => match have {
            Some(h) => str_eq(w.as_str(), h.as_str()),
            None => false,
        },
        None => true,
    }
}

fn client_id_matches(want: &Option<Dhcpv4ClientId>, have: &Option<Dhcpv4ClientId>) -> (r: bool)
    ensures
        r == opt_matches(
            opt_client_id(*want),
            opt_client_id(*have),
        ),
{
    match want {
        Some(w) => match have {
            Some(h) => match (w, h) {
                (Dhcpv4ClientId::LinkLayerAddress, Dhcpv4ClientId::LinkLayerAddress) => true,
                (Dhcpv4ClientId::IaidPlusDuid, Dhcpv4ClientId::IaidPlusDuid) => true,
                (Dhcpv4ClientId::Other(a), Dhcpv4ClientId::Other(b)) => str_eq(
                    a.as_str(),
                    b.as_str(),
                ),
                _ => false,
            },
            None => false,
        },
        None => true,
    }
}

fn duid_matches(want: &Option<Dhcpv6Duid>, have: &Option<Dhcpv6Duid>) -> (r: bool)
    ensures
        r == opt_matches(opt_duid(*want), opt_duid(*have)),
{
    match want {
        Some(w) => match have {
            Some(h) => match (w, h) {
                (
                    Dhcpv6Duid::LinkLayerAddressPlusTime,
                    Dhcpv6Duid::LinkLayerAddressPlusTime,
                ) => true,
                (Dhcpv6Duid::EnterpriseNumber, Dhcpv6Duid::EnterpriseNumber) => true,
                (Dhcpv6Duid::LinkLayerAddress, Dhcpv6Duid::LinkLayerAddress) => true,
                (Dhcpv6Duid::Uuid, Dhcpv6Duid::Uuid) => true,
                (Dhcpv6Duid::Other(a), Dhcpv6Duid::Other(b)) => str_eq(a.as_str(), b.as_str()),
                _ => false,
            },
            None => false,
        },
        None => true,
    }
}

fn gen_mode_matches(want: &Option<Ipv6AddrGenMode>, have: &Option<Ipv6AddrGenMode>) -> (r: bool)
    ensures
        r == opt_matches(
            opt_gen_mode(*want),
            opt_gen_mode(*have),
        ),
{
    match want {
        Some(w) => match have {
            Some(h) => match (w, h) {
                (Ipv6AddrGenMode::Eui64, Ipv6AddrGenMode::Eui64) => true,
                (Ipv6AddrGenMode::StablePrivacy, Ipv6AddrGenMode::StablePrivacy) => true,
                (Ipv6AddrGenMode::Other(a), Ipv6AddrGenMode::Other(b)) => str_eq(
                    a.as_str(),
                    b.as_str(),
                ),
                _ => false,
            },
            None => false,
        },
        None => true,
    }
}

fn list_has_addr(list: &Vec<InterfaceIpAddr>, a: &InterfaceIpAddr) -> (r: bool)
    ensures
        r == has_addr(addrs_view(list@), a@),
{
    let mut i: usize = 0;
    while i < list.len()
        invariant
            i <= list.len(),
            forall|j: int| 0 <= j < i ==> !same_addr(#[trigger] addrs_view(list@)[j], a@),
        decreases list.len() - i,
    {
        if list[i].ip == a.ip && list[i].prefix_length == a.prefix_length {
            assert(same_addr(addrs_view(list@)[i as int], a@));
            return true;
        }
        i += 1;
    }
    false
}

fn all_found(want: &Vec<InterfaceIpAddr>, have: &Vec<InterfaceIpAddr>, skip_auto: bool) -> (r: bool)
    ensures
        r == all_in(addrs_view(want@), addrs_view(have@), skip_auto),
{
    let ghost a = addrs_view(want@);
    let ghost b = addrs_view(have@);
    let mut i: usize = 0;
    while i < want.len()
        invariant
            i <= want.len(),
            a == addrs_view(want@),
            b == addrs_view(have@),
            forall|j: int| 0 <= j < i ==> (skip_auto && (#[trigger] a[j]).is_auto()) || has_addr(b, a[j]),
        decreases want.len() - i,
    {
        assert(a[i as int] == want@[i as int]@);
        if !(skip_auto && want[i].is_auto()) && !list_has_addr(have, &want[i]) {
            assert(!((skip_auto && a[i as int].is_auto()) || has_addr(b, a[i as int])));
            return false;
        }
        i += 1;
    }
    true
}

fn addresses_match(
    want: &Option<Vec<InterfaceIpAddr>>,
    have: &Option<Vec<InterfaceIpAddr>>,
    allow_extra_address: bool,
) -> (r: bool)
    ensures
        r == (opt_addrs(*want) is Some ==> all_in(
            opt_addrs(*want)->0,
            addrs_or_empty(opt_addrs(*have)),
            false,
        ) && (!allow_extra_address ==> all_in(
            addrs_or_empty(opt_addrs(*have)),
            opt_addrs(*want)->0,
            true,
        ))),
{
    match want {
        None => true,
        Some(w) => {
            let empty: Vec<InterfaceIpAddr> = Vec::new();
            let h = match have {
                Some(h) => h,
                None => &empty,
            };
            proof {
                if have is None {
                    assert(addrs_view(empty@) =~= Seq::<InterfaceIpAddrView>::empty());
                }
            }
            all_found(w, h, false) && (allow_extra_address || all_found(h, w, true))
        },
    }
}

impl InterfaceIpv4 {
    /// Holds the stack found after applying to this stack.
    pub fn verify(&self, current: &Self) -> (r: Result<(), NmstateError>)
        ensures
            r is Ok <==> stack_verified(self@, current@),
            r is Err ==> r->Err_0.kind() == ErrorKind::VerificationError,
    {
        let ok = self.enabled == current.enabled && bool_matches(self.dhcp, current.dhcp)
            && client_id_matches(&self.dhcp_client_id, &current.dhcp_client_id) && bool_matches(
            self.auto_dns,
            current.auto_dns,
        ) && bool_matches(self.auto_gateway, current.auto_gateway) && bool_matches(
            self.auto_routes,
            current.auto_routes,
        ) && u32_matches(self.auto_table_id, current.auto_table_id) && u32_matches(
            self.auto_route_metric,
            current.auto_route_metric,
        ) && bool_matches(self.dhcp_send_hostname, current.dhcp_send_hostname) && text_matches(
            &self.dhcp_custom_hostname,
            &current.dhcp_custom_hostname,
        ) && addresses_match(&self.addresses, &current.addresses, self.allow_extra_address);
        if ok {
            Ok(())
        } else {
            Err(
                NmstateError::with_text(
                    ErrorKind::VerificationError,
                    "Verification failure: the IPv4 stack differs from the desired one",
                ),
            )
        }
    }
}

impl InterfaceIpv6 {
    /// Holds the stack found after applying to this stack.
    pub fn verify(&self, current: &Self) -> (r: Result<(), NmstateError>)
        ensures
            r is Ok <==> stack_verified(self@, current@),
            r is Err ==> r->Err_0.kind() == ErrorKind::VerificationError,
    {
        let ok = self.enabled == current.enabled && bool_matches(self.dhcp, current.dhcp)
            && bool_matches(self.autoconf, current.autoconf) && duid_matches(
            &self.dhcp_duid,
            &current.dhcp_duid,
        ) && gen_mode_matches(&self.addr_gen_mode, &current.addr_gen_mode) && bool_matches(
            self.auto_dns,
            current.auto_dns,
        ) && bool_matches(self.auto_gateway, current.auto_gateway) && bool_matches(
            self.auto_routes,
            current.auto_routes,
        ) && u32_matches(self.auto_table_id, current.auto_table_id) && u32_matches(
            self.auto_route_metric,
            current.auto_route_metric,
        ) && text_matches(&self.token, &current.token) && bool_matches(
            self.dhcp_send_hostname,
            current.dhcp_send_hostname,
        ) && text_matches(&self.dhcp_custom_hostname, &current.dhcp_custom_hostname)
            && addresses_match(&self.addresses, &current.addresses, self.allow_extra_address);
        if ok {
            Ok(())
        } else {
            Err(
                NmstateError::with_text(
                    ErrorKind::VerificationError,
                    "Verification failure: the IPv6 stack differs from the desired one",
                ),
            )
        }
    }
}

/// A stack is satisfied by itself.
pub proof fn law_verify_reflexive(s: IpStack)
    ensures
        stack_verified(s, s),
{
    if s.addresses is Some {
        let w = s.addresses->0;
        assert forall|i: int| 0 <= i < w.len() implies has_addr(w, #[trigger] w[i]) by {
            assert(same_addr(w[i], w[i]));
        }
    }
}

/// Where extra addresses are allowed, addresses found beyond those
/// wanted do no harm.
pub proof fn law_extra_addresses_allowed(
    want: IpStack,
    have: IpStack,
    more: Seq<InterfaceIpAddrView>,
)
    requires
        want.allow_extra_address,
        have.addresses is Some,
        stack_verified(want, have),
    ensures
        stack_verified(want, IpStack { addresses: Some(have.addresses->0 + more), ..have }),
{
    if want.addresses is Some {
        let w = want.addresses->0;
        let h = have.addresses->0;
        let h2 = h + more;
        assert forall|i: int| 0 <= i < w.len() implies has_addr(h2, #[trigger] w[i]) by {
            assert(has_addr(h, w[i]));
            let k = choose|k: int| 0 <= k < h.len() && same_addr(h[k], w[i]);
            assert(h2[k] == h[k]);
        }
    }
}

} // verus!
