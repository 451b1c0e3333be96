use crate::ip::address::InterfaceIpAddrView;
use crate::ip::model::{
    addr_kept, addresses_fit, addrs_none_or_all_auto, completed, kept_addresses, made_static,
    merged_ip, normalized, sanitize_outcome, special_merged, IpStack,
};
use crate::ip::token_laws::law_token_canonical_is_fixed;
use crate::ip::types::IpProp;
use vstd::prelude::*;

verus! {

/// Every address that stays comes from one of the list that was fit to
/// stay, and has lost its times to live and its reported flags.
pub proof fn lemma_kept_addresses_origin(addrs: Seq<InterfaceIpAddrView>, is_ipv6: bool)
    ensures
        kept_addresses(addrs, is_ipv6).len() <= addrs.len(),
        forall|j: int|
            0 <= j < kept_addresses(addrs, is_ipv6).len() ==> exists|i: int|
                0 <= i < addrs.len() && addr_kept(addrs[i], is_ipv6) && #[trigger] kept_addresses(
                    addrs,
                    is_ipv6,
                )[j] == addrs[i].cleaned(),
    decreases addrs.len(),
{
    if addrs.len() > 0 {
        let head = addrs.drop_last();
        lemma_kept_addresses_origin(head, is_ipv6);
        let k = kept_addresses(addrs, is_ipv6);
        assert forall|j: int| 0 <= j < k.len() implies exists|i: int|
            0 <= i < addrs.len() && addr_kept(addrs[i], is_ipv6) && #[trigger] k[j]
                == addrs[i].cleaned() by {
            if j < kept_addresses(head, is_ipv6).len() {
                let i = choose|i: int|
                    0 <= i < head.len() && addr_kept(head[i], is_ipv6) && kept_addresses(
                        head,
                        is_ipv6,
                    )[j] == head[i].cleaned();
                assert(addrs[i] == head[i]);
            } else {
                assert(k[j] == addrs[addrs.len() - 1].cleaned());
            }
        }
    }
}

/// A list in which every address is fit to stay, and has no times to live
/// and no reported flags, stays as it is.
pub proof fn lemma_kept_addresses_fixed(addrs: Seq<InterfaceIpAddrView>, is_ipv6: bool)
    requires
        forall|i: int|
            0 <= i < addrs.len() ==> addr_kept(#[trigger] addrs[i], is_ipv6) && addrs[i].cleaned()
                == addrs[i],
    ensures
        kept_addresses(addrs, is_ipv6) == addrs,
    decreases addrs.len(),
{
    if addrs.len() > 0 {
        lemma_kept_addresses_fixed(addrs.drop_last(), is_ipv6);
        assert(addrs.drop_last().push(addrs.last()) =~= addrs);
    } else {
        assert(addrs =~= Seq::<InterfaceIpAddrView>::empty());
    }
}

/// To drop and clean the addresses of a list twice is to do so once.
pub proof fn lemma_kept_addresses_idempotent(addrs: Seq<InterfaceIpAddrView>, is_ipv6: bool)
    ensures
        kept_addresses(kept_addresses(addrs, is_ipv6), is_ipv6) == kept_addresses(addrs, is_ipv6),
{
    lemma_kept_addresses_origin(addrs, is_ipv6);
    lemma_kept_addresses_fixed(kept_addresses(addrs, is_ipv6), is_ipv6);
}

/// To bring a stack to its normal form twice is to do so once.
pub proof fn lemma_normalized_idempotent(s: IpStack, is_ipv6: bool)
    ensures
        normalized(normalized(s, is_ipv6), is_ipv6) == normalized(s, is_ipv6),
{
    if s.addresses is Some {
        lemma_kept_addresses_idempotent(s.addresses->0, is_ipv6);
    }
}

/// A stack whose addresses fit its family still does so in its normal
/// form.
pub proof fn lemma_normalized_fits(s: IpStack, is_ipv6: bool)
    requires
        addresses_fit(s, is_ipv6),
    ensures
        addresses_fit(normalized(s, is_ipv6), is_ipv6),
{
    if s.addresses is Some {
        lemma_kept_addresses_origin(s.addresses->0, is_ipv6);
    }
}

/// Sanitizing is idempotent: a stack that was sanitized is accepted and
/// left as it is when it is sanitized again.
pub proof fn law_sanitize_idempotent(s: IpStack, is_ipv6: bool, is_desired: bool)
    requires
        sanitize_outcome(s, is_ipv6, is_desired).1,
    ensures
        sanitize_outcome(sanitize_outcome(s, is_ipv6, is_desired).0, is_ipv6, is_desired) == (
            sanitize_outcome(s, is_ipv6, is_desired).0,
            true,
        ),
{
    let r = sanitize_outcome(s, is_ipv6, is_desired).0;
    lemma_normalized_idempotent(s, is_ipv6);
    if is_desired {
        lemma_normalized_fits(s, is_ipv6);
    }
    assert(normalized(r, is_ipv6) == r) by {
        if s.addresses is Some {
            lemma_kept_addresses_idempotent(s.addresses->0, is_ipv6);
        }
    }
    if s.token is Some {
        law_token_canonical_is_fixed(s.token->0);
    }
}

/// A stack that was sanitized as a desired one is accepted and left as
/// it is when it is sanitized again in any way.
pub proof fn law_sanitize_then_normalize(s: IpStack, is_ipv6: bool, is_desired: bool)
    requires
        sanitize_outcome(s, is_ipv6, is_desired).1,
    ensures
        sanitize_outcome(sanitize_outcome(s, is_ipv6, is_desired).0, is_ipv6, false) == (
            sanitize_outcome(s, is_ipv6, is_desired).0,
            true,
        ),
{
    let r = sanitize_outcome(s, is_ipv6, is_desired).0;
    lemma_normalized_idempotent(s, is_ipv6);
    assert(normalized(r, is_ipv6) == r) by {
        if s.addresses is Some {
            lemma_kept_addresses_idempotent(s.addresses->0, is_ipv6);
        }
    }
    if s.token is Some {
        law_token_canonical_is_fixed(s.token->0);
    }
}

/// A sanitized stack that is switched off states no `dhcp`, no `autoconf`
/// and no addresses.
pub proof fn law_disabled_is_canonical(s: IpStack, is_ipv6: bool, is_desired: bool)
    requires
        sanitize_outcome(s, is_ipv6, is_desired).1,
    ensures
        !sanitize_outcome(s, is_ipv6, is_desired).0.enabled ==> {
            let r = sanitize_outcome(s, is_ipv6, is_desired).0;
            r.dhcp is None && r.autoconf is None && r.addresses is None
        },
{
}

/// A sanitized stack that is switched on lists no empty set of addresses.
pub proof fn law_enabled_has_no_empty_list(s: IpStack, is_ipv6: bool, is_desired: bool)
    requires
        sanitize_outcome(s, is_ipv6, is_desired).1,
    ensures
        ({
            let r = sanitize_outcome(s, is_ipv6, is_desired).0;
            r.addresses is Some ==> r.enabled && r.addresses->0.len() > 0
        }),
{
}

/// A sanitized stack that does not send its host name states no host
/// name of its own.
pub proof fn law_hostname_consistent(s: IpStack, is_ipv6: bool, is_desired: bool)
    requires
        sanitize_outcome(s, is_ipv6, is_desired).1,
    ensures
        ({
            let r = sanitize_outcome(s, is_ipv6, is_desired).0;
            r.dhcp_send_hostname == Some(false) ==> r.dhcp_custom_hostname is None
        }),
{
}

/// A sanitized stack that is dynamic states whether it takes DNS
/// settings, routes and the gateway from the network; one that is not
/// dynamic states nothing of what only a dynamic stack needs.
pub proof fn law_dynamic_options(s: IpStack, is_ipv6: bool, is_desired: bool)
    requires
        sanitize_outcome(s, is_ipv6, is_desired).1,
    ensures
        ({
            let r = sanitize_outcome(s, is_ipv6, is_desired).0;
            if r.is_auto() {
                r.auto_dns is Some && r.auto_routes is Some && r.auto_gateway is Some
            } else {
                r.auto_dns is None && r.auto_routes is None && r.auto_gateway is None
                    && r.auto_table_id is None && r.auto_route_metric is None && r.dhcp_client_id is None
                    && r.dhcp_duid is None && r.dhcp_send_hostname is None
                    && r.dhcp_custom_hostname is None
            }
        }),
{
}

/// A sanitized stack lists no address that was learned from the network,
/// and no address with a time to live or a reported flag.
pub proof fn law_no_auto_address(s: IpStack, is_ipv6: bool, is_desired: bool)
    requires
        sanitize_outcome(s, is_ipv6, is_desired).1,
    ensures
        ({
            let r = sanitize_outcome(s, is_ipv6, is_desired).0;
            r.addresses is Some ==> forall|i: int|
                0 <= i < r.addresses->0.len() ==> {
                    let a = #[trigger] r.addresses->0[i];
                    !a.is_auto() && a.valid_life_time is None && a.preferred_life_time is None
                        && a.mptcp_flags is None
                }
        }),
{
    if s.addresses is Some {
        lemma_kept_addresses_origin(s.addresses->0, is_ipv6);
    }
}

/// Every address of a sanitized IPv6 stack is an IPv6 address and not
/// link-local.
pub proof fn law_family_purity_ipv6(s: IpStack, is_desired: bool)
    requires
        sanitize_outcome(s, true, is_desired).1,
    ensures
        ({
            let r = sanitize_outcome(s, true, is_desired).0;
            r.addresses is Some ==> forall|i: int|
                0 <= i < r.addresses->0.len() ==> {
                    let a = #[trigger] r.addresses->0[i];
                    a.ip is V6 && !a.is_link_local()
                }
        }),
{
    if s.addresses is Some {
        lemma_kept_addresses_origin(s.addresses->0, true);
    }
}

/// Every address of a sanitized IPv4 stack is an IPv4 address, where the
/// stack was sanitized as a desired one, or listed no IPv6 address that
/// stays.
pub proof fn law_family_purity_ipv4(s: IpStack, is_desired: bool)
    requires
        sanitize_outcome(s, false, is_desired).1,
        is_desired || (s.addresses is Some ==> forall|i: int|
            0 <= i < s.addresses->0.len() && addr_kept(#[trigger] s.addresses->0[i], false)
                ==> s.addresses->0[i].ip is V4),
    ensures
        ({
            let r = sanitize_outcome(s, false, is_desired).0;
            r.addresses is Some ==> forall|i: int|
                0 <= i < r.addresses->0.len() ==> (#[trigger] r.addresses->0[i]).ip is V4
        }),
{
    if s.addresses is Some {
        lemma_kept_addresses_origin(s.addresses->0, false);
    }
}

/// Dynamic addresses become static: where the running stack is dynamic
/// with addresses `A`, and the desired stack is on, switches the dynamic
/// configuration off and lists no static address, the merged stack lists
/// `A` without times to live.
pub proof fn law_dynamic_to_static(desired: IpStack, current: IpStack)
    requires
        current.is_auto(),
        current.addresses is Some,
        current.addresses->0.len() > 0,
        desired.states(IpProp::Enabled) ==> desired.enabled,
        desired.dhcp == Some(false),
        desired.autoconf == Some(false) || (desired.autoconf is None && current.autoconf != Some(
            true,
        )),
        addrs_none_or_all_auto(desired.addresses),
    ensures
        merged_ip(desired, current).enabled,
        merged_ip(desired, current).dhcp == Some(false),
        !merged_ip(desired, current).is_auto(),
        merged_ip(desired, current).addresses == Some(made_static(current.addresses->0)),
        forall|i: int|
            0 <= i < current.addresses->0.len() ==> {
                let a = #[trigger] merged_ip(desired, current).addresses->0[i];
                a.ip == current.addresses->0[i].ip && a.prefix_length
                    == current.addresses->0[i].prefix_length && a.valid_life_time is None
                    && a.preferred_life_time is None
            },
{
}

/// Where every address of a list stays, the list keeps its length, and
/// each address stays in its place, without times to live and reported
/// flags.
pub proof fn lemma_kept_addresses_all(addrs: Seq<InterfaceIpAddrView>, is_ipv6: bool)
    requires
        forall|i: int| 0 <= i < addrs.len() ==> addr_kept(#[trigger] addrs[i], is_ipv6),
    ensures
        kept_addresses(addrs, is_ipv6).len() == addrs.len(),
        forall|i: int|
            0 <= i < addrs.len() ==> #[trigger] kept_addresses(addrs, is_ipv6)[i]
                == addrs[i].cleaned(),
    decreases addrs.len(),
{
    if addrs.len() > 0 {
        lemma_kept_addresses_all(addrs.drop_last(), is_ipv6);
        assert(addr_kept(addrs.last(), is_ipv6));
    }
}

/// Dynamic addresses become static in a reconciled stack too: where the
/// running stack is dynamic with addresses `A` of its family, and the
/// stack is on, has the dynamic configuration switched off as the
/// desired stack states it, and lists no static address, the reconciled
/// stack is on and lists `A` without times to live.
pub proof fn law_special_merge_dynamic_to_static(
    s: IpStack,
    desired: IpStack,
    current: IpStack,
    is_ipv6: bool,
)
    requires
        current.is_auto(),
        current.addresses is Some,
        current.addresses->0.len() > 0,
        is_ipv6 ==> forall|i: int|
            0 <= i < current.addresses->0.len() ==> (#[trigger] current.addresses->0[i]).ip is V6
                && !current.addresses->0[i].is_link_local(),
        desired.states(IpProp::Enabled) ==> s.enabled,
        desired.dhcp == Some(false),
        s.dhcp == Some(false),
        (desired.autoconf is Some && s.autoconf != Some(true)) || (desired.autoconf is None
            && current.autoconf != Some(true)),
        addrs_none_or_all_auto(s.addresses),
    ensures
        special_merged(s, desired, current, is_ipv6).enabled,
        special_merged(s, desired, current, is_ipv6).dhcp == Some(false),
        !special_merged(s, desired, current, is_ipv6).is_auto(),
        special_merged(s, desired, current, is_ipv6).addresses is Some,
        special_merged(s, desired, current, is_ipv6).addresses->0.len()
            == current.addresses->0.len(),
        forall|i: int|
            0 <= i < current.addresses->0.len() ==> {
                let a = #[trigger] special_merged(s, desired, current, is_ipv6).addresses->0[i];
                a.ip == current.addresses->0[i].ip && a.prefix_length
                    == current.addresses->0[i].prefix_length && a.valid_life_time is None
                    && a.preferred_life_time is None
            },
{
    let taken = made_static(current.addresses->0);
    assert forall|i: int| 0 <= i < taken.len() implies addr_kept(#[trigger] taken[i], is_ipv6) by {
        assert(taken[i] == current.addresses->0[i].made_static());
    }
    lemma_kept_addresses_all(taken, is_ipv6);
    let m = completed(s, desired.prop_list, desired, current);
    assert(m.addresses == Some(taken));
    let r = special_merged(s, desired, current, is_ipv6);
    assert(r.addresses == Some(kept_addresses(taken, is_ipv6)));
}

} // verus!
