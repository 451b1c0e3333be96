use crate::addr_fmt::{ipv6_text, push_ipv6};
use crate::dns::{is_ipv6_addr, parse_dns_ipv6_link_local_srv};
use crate::dns_state::{DnsClientState, DnsClientStateView};
use crate::error::{ErrorKind, NmstateError};
use crate::ifaces::base::{clone_opt_ipv4, clone_opt_ipv6, BaseInterface};
use crate::ifaces::merged::MergedInterface;
use crate::net_state::MergedNetworkState;
use crate::nm::dns::{
    cur_dns_ifaces_still_valid_for_dns, get_cur_dns_ifaces, is_mixed_dns_servers,
    reselect_dns_ifaces,
};
use crate::nm::dns_laws::lemma_family_runs_bound;
use crate::nm::dns_model::{
    hoisted_stack, purged, purged_iface, saved, saved_iface, saved_one, servers_of, set_dns_refused,
    stored, stored_server, stored_servers, with_dns, with_ifaces, DEFAULT_DNS_PRIORITY,
};
use crate::nm::nm_dbus::{NmActiveConnection, NmDevice};
use crate::text::{clone_texts, str_eq};
use vstd::prelude::*;

verus! {

/// Puts DNS settings on the stack of a family of an interface.
pub fn set_iface_dns_conf(
    is_ipv6: bool,
    iface: &mut BaseInterface,
    servers: Vec<String>,
    searches: Vec<String>,
    options: Vec<String>,
    priority: Option<i32>,
) -> (r: Result<(), NmstateError>)
    ensures
        ({
            let conf = DnsClientStateView {
                server: Some(servers.deep_view()),
                search: Some(searches.deep_view()),
                options: Some(options.deep_view()),
                priority,
            };
            final(iface)@ == with_dns(old(iface)@, is_ipv6, conf) && (r is Err <==> set_dns_refused(
                old(iface)@,
                is_ipv6,
                conf,
            ))
        }),
        r is Err ==> r->Err_0.kind() == ErrorKind::Bug,
{
    let dns_conf = DnsClientState {
        server: Some(servers),
        search: Some(searches),
        options: Some(options),
        priority,
    };
    let purge = dns_conf.is_purge();
    if is_ipv6 {
        match iface.ipv6.as_mut() {
            Some(ip_conf) => {
                ip_conf.dns = Some(dns_conf);
                return Ok(());
            },
            None => {},
        }
    } else {
        match iface.ipv4.as_mut() {
            Some(ip_conf) => {
                ip_conf.dns = Some(dns_conf);
                return Ok(());
            },
            None => {},
        }
    }
    if !purge {
        Err(NmstateError::with_text(ErrorKind::Bug, "BUG: The dns interface is hold None IP"))
    } else {
        Ok(())
    }
}

fn hoist_stack(a: &mut BaseInterface, merged: &BaseInterface, is_ipv6: bool)
    ensures
        final(a)@ == hoisted_stack(old(a)@, merged@, is_ipv6),
{
    if is_ipv6 {
        if a.ipv6.is_none() {
            a.ipv6 = clone_opt_ipv6(&merged.ipv6);
        }
    } else if a.ipv4.is_none() {
        a.ipv4 = clone_opt_ipv4(&merged.ipv4);
    }
}

fn purge_iface(iface: &mut MergedInterface, is_ipv6: bool)
    ensures
        final(iface)@ == purged_iface(old(iface)@, is_ipv6),
{
    if iface.merged.is_absent() {
        return ;
    }
    if !iface.is_changed() {
        iface.mark_as_changed();
    }
    match iface.for_apply.as_mut() {
        Some(apply_iface) => {
            if apply_iface.can_have_ip() {
                hoist_stack(apply_iface, &iface.merged, is_ipv6);
                let servers: Vec<String> = Vec::new();
                let searches: Vec<String> = Vec::new();
                let options: Vec<String> = Vec::new();
                proof {
                    assert(servers.deep_view() =~= Seq::<Seq<char>>::empty());
                    assert(searches.deep_view() =~= Seq::<Seq<char>>::empty());
                    assert(options.deep_view() =~= Seq::<Seq<char>>::empty());
                }
                let _ = set_iface_dns_conf(is_ipv6, apply_iface, servers, searches, options, None);
            }
        },
        None => {},
    }
}

/// Clears the DNS settings of a family on the interfaces named.
pub fn purge_dns_config(is_ipv6: bool, ifaces: &[String], merged_state: &mut MergedNetworkState)
    -> (r: Result<(), NmstateError>)
    ensures
        r is Ok,
        final(merged_state)@ == with_ifaces(
            old(merged_state)@,
            purged(
                old(merged_state)@.interfaces.kernel_ifaces,
                ifaces.deep_view(),
                is_ipv6,
                ifaces.deep_view().len() as int,
            ),
        ),
{
    let ghost start = merged_state@;
    let mut i: usize = 0;
    while i < ifaces.len()
        invariant
            i <= ifaces.len(),
            merged_state@ == with_ifaces(
                start,
                purged(start.interfaces.kernel_ifaces, ifaces.deep_view(), is_ipv6, i as int),
            ),
        decreases ifaces.len() - i,
    {
        let ghost before = merged_state@;
        assert(ifaces.deep_view()[i as int] == ifaces@[i as int]@);
        match merged_state.interfaces.find(ifaces[i].as_str()) {
            Some(k) => {
                purge_iface(&mut merged_state.interfaces.kernel_ifaces[k], is_ipv6);
                assert(merged_state@.interfaces.kernel_ifaces =~= before.interfaces.kernel_ifaces.update(
                    k as int,
                    purged_iface(before.interfaces.kernel_ifaces[k as int], is_ipv6),
                ));
            },
            None => {},
        }
        i += 1;
    }
    Ok(())
}

fn strip_server(srv: &String) -> (r: Result<String, NmstateError>)
    ensures
        match stored_server(srv@) {
            Some(s) => r is Ok && r->Ok_0@ == s,
            None => r is Err && r->Err_0.kind() == ErrorKind::InvalidArgument,
        },
{
    match parse_dns_ipv6_link_local_srv(srv.as_str()) {
        Ok(Some((ip, _))) => {
            let mut text = String::new();
            push_ipv6(&mut text, ip);
            assert(text@ =~= ipv6_text(ip as nat));
            Ok(text)
        },
        Ok(None) => Ok(srv.clone()),
        Err(e) => Err(e),
    }
}

fn strip_servers(servers: &Vec<String>) -> (r: Result<Vec<String>, NmstateError>)
    ensures
        match stored_servers(servers.deep_view()) {
            Some(s) => r is Ok && r->Ok_0.deep_view() == s,
            None => r is Err && r->Err_0.kind() == ErrorKind::InvalidArgument,
        },
{
    let ghost all = servers.deep_view();
    let mut out: Vec<String> = Vec::new();
    let mut i: usize = 0;
    assert(all.take(0) =~= Seq::<Seq<char>>::empty());
    assert(out.deep_view() =~= Seq::<Seq<char>>::empty());
    while i < servers.len()
        invariant
            i <= servers.len(),
            all == servers.deep_view(),
            stored_servers(all.take(i as int)) == Some(out.deep_view()),
        decreases servers.len() - i,
    {
        proof {
            let next = all.take(i + 1);
            assert(next.drop_last() =~= all.take(i as int));
            assert(next.last() == servers@[i as int]@);
        }
        let ghost before = out.deep_view();
        match strip_server(&servers[i]) {
            Ok(text) => {
                out.push(text);
                assert(out.deep_view() =~= before.push(text@));
            },
            Err(e) => {
                proof {
                    if stored_servers(all) is Some {
                        lemma_stored_servers_prefix(all, i + 1);
                    }
                }
                return Err(e);
            },
        }
        i += 1;
    }
    assert(all.take(i as int) =~= all);
    Ok(out)
}

/// Where a list of name servers can be stored, so can each of its
/// beginnings.
pub proof fn lemma_stored_servers_prefix(srvs: Seq<Seq<char>>, k: int)
    requires
        0 <= k <= srvs.len(),
        stored_servers(srvs) is Some,
    ensures
        stored_servers(srvs.take(k)) is Some,
    decreases srvs.len(),
{
    if k == srvs.len() {
        assert(srvs.take(k) =~= srvs);
    } else {
        lemma_stored_servers_prefix(srvs.drop_last(), k);
        assert(srvs.drop_last().take(k) =~= srvs.take(k));
    }
}

pub(crate) fn save_iface(
    iface: &mut MergedInterface,
    is_ipv6: bool,
    servers: Vec<String>,
    searches: Vec<String>,
    options: Vec<String>,
    priority: Option<i32>,
) -> (r: Result<(), NmstateError>)
    ensures
        ({
            let conf = DnsClientStateView {
                server: Some(servers.deep_view()),
                search: Some(searches.deep_view()),
                options: Some(options.deep_view()),
                priority,
            };
            let placed = saved_iface(old(iface)@, is_ipv6, conf);
            final(iface)@ == placed.0 && (r is Err <==> placed.1 is Some) && (r is Err
                ==> r->Err_0.kind() == placed.1->0)
        }),
{
    if !iface.is_changed() {
        iface.mark_as_changed();
    }
    match iface.for_apply.as_mut() {
        Some(apply_iface) => {
            hoist_stack(apply_iface, &iface.merged, is_ipv6);
            set_iface_dns_conf(is_ipv6, apply_iface, servers, searches, options, priority)
        },
        None => Ok(()),
    }
}

/// Puts the name servers of a family on their holder. The holder of the
/// preferred family gets the search domains and options too.
pub fn _save_dns_to_iface(
    is_ipv6: bool,
    iface_name: &str,
    servers: Vec<String>,
    merged_state: &mut MergedNetworkState,
    preferred: bool,
) -> (r: Result<(), NmstateError>)
    ensures
        ({
            let placed = saved_one(
                old(merged_state)@,
                is_ipv6,
                iface_name@,
                servers.deep_view(),
                preferred,
            );
            final(merged_state)@ == placed.0 && (r is Err <==> placed.1 is Some) && (r is Err
                ==> r->Err_0.kind() == placed.1->0)
        }),
{
    let stripped = strip_servers(&servers);
    let servers = match stripped {
        Ok(s) => s,
        Err(e) => {
            return Err(e);
        },
    };
    proof {
        reveal_strlit("");
        if iface_name@.len() == 0 {
            assert(iface_name@ =~= ""@);
        }
    }
    if str_eq(iface_name, "") {
        return Err(
            NmstateError::with_text(
                ErrorKind::InvalidArgument,
                "Failed to find suitable(IP enabled) interface for DNS server",
            ),
        );
    }
    let ghost before = merged_state@;
    match merged_state.interfaces.find(iface_name) {
        Some(k) => {
            let (searches, options, priority) = if preferred {
                (
                    clone_texts(&merged_state.dns.searches),
                    clone_texts(&merged_state.dns.options),
                    Some(DEFAULT_DNS_PRIORITY),
                )
            } else {
                (Vec::new(), Vec::new(), Some(DEFAULT_DNS_PRIORITY + 10))
            };
            proof {
                if !preferred {
                    assert(searches.deep_view() =~= Seq::<Seq<char>>::empty());
                    assert(options.deep_view() =~= Seq::<Seq<char>>::empty());
                }
            }
            let r = save_iface(
                &mut merged_state.interfaces.kernel_ifaces[k],
                is_ipv6,
                servers,
                searches,
                options,
                priority,
            );
            proof {
                assert(merged_state@.interfaces.kernel_ifaces
                    =~= before.interfaces.kernel_ifaces.update(
                    k as int,
                    merged_state@.interfaces.kernel_ifaces[k as int],
                ));
            }
            r
        },
        None => Err(
            NmstateError::with_text(
                ErrorKind::Bug,
                "_save_dns_to_iface(): Failed to find interface among merged state",
            ),
        ),
    }
}

fn servers_by_family(srvs: &Vec<String>, is_ipv6: bool) -> (r: Vec<String>)
    ensures
        r.deep_view() == servers_of(srvs.deep_view(), is_ipv6),
{
    let ghost all = srvs.deep_view();
    let mut out: Vec<String> = Vec::new();
    let mut i: usize = 0;
    assert(all.take(0) =~= Seq::<Seq<char>>::empty());
    assert(out.deep_view() =~= Seq::<Seq<char>>::empty());
    while i < srvs.len()
        invariant
            i <= srvs.len(),
            all == srvs.deep_view(),
            out.deep_view() == servers_of(all.take(i as int), is_ipv6),
        decreases srvs.len() - i,
    {
        let srv = &srvs[i];
        proof {
            let next = all.take(i + 1);
            assert(next.drop_last() =~= all.take(i as int));
            assert(next.last() == srv@);
        }
        if is_ipv6_addr(srv.as_str()) == is_ipv6 {
            let ghost before = out.deep_view();
            out.push(srv.clone());
            assert(out.deep_view() =~= before.push(srv@));
        }
        i += 1;
    }
    assert(all.take(i as int) =~= all);
    out
}

/// Splits the global name servers by family and puts each family on its
/// holder.
pub fn save_dns_to_iface(
    v4_iface_name: &str,
    v6_iface_name: &str,
    merged_state: &mut MergedNetworkState,
) -> (r: Result<(), NmstateError>)
    ensures
        ({
            let placed = saved(old(merged_state)@, v4_iface_name@, v6_iface_name@);
            final(merged_state)@ == placed.0 && (r is Err <==> placed.1 is Some) && (r is Err
                ==> r->Err_0.kind() == placed.1->0)
        }),
{
    let prefer_ipv6_srv = merged_state.dns.servers.len() > 0 && is_ipv6_addr(
        merged_state.dns.servers[0].as_str(),
    );
    proof {
        if merged_state.dns.servers.len() > 0 {
            assert(merged_state@.dns.servers[0] == merged_state.dns.servers@[0]@);
        }
    }
    let v6_servers = servers_by_family(&merged_state.dns.servers, true);
    let v4_servers = servers_by_family(&merged_state.dns.servers, false);
    if v6_servers.len() > 0 {
        _save_dns_to_iface(true, v6_iface_name, v6_servers, merged_state, prefer_ipv6_srv)?;
    }
    if v4_servers.len() > 0 {
        _save_dns_to_iface(false, v4_iface_name, v4_servers, merged_state, !prefer_ipv6_srv)?;
    }
    Ok(())
}

/// Places the global name servers on the interfaces that hold them.
pub fn store_dns_config_to_iface(
    merged_state: &mut MergedNetworkState,
    nm_acs: &[NmActiveConnection],
    nm_devs: &[NmDevice],
) -> (r: Result<(), NmstateError>)
    ensures
        ({
            let placed = stored(old(merged_state)@, nm_acs@, nm_devs@);
            final(merged_state)@ == placed.0 && (r is Err <==> placed.1 is Some) && (r is Err
                ==> r->Err_0.kind() == placed.1->0)
        }),
{
    if merged_state.dns.is_changed() || !cur_dns_ifaces_still_valid_for_dns(
        &merged_state.interfaces,
    ) {
        if merged_state.dns.servers.len() > 2 && is_mixed_dns_servers(merged_state.dns.servers.as_slice()) {
            return Err(
                NmstateError::with_text(
                    ErrorKind::NotImplementedError,
                    "Placing IPv4/IPv6 nameserver in the middle of IPv6/IPv4 nameservers is not \
                     supported yet",
                ),
            );
        }
        proof {
            lemma_family_runs_bound(merged_state@.dns.servers);
        }
        let (cur_v4_ifaces, cur_v6_ifaces) = get_cur_dns_ifaces(&merged_state.interfaces);
        let (v4_iface_name, v6_iface_name) = reselect_dns_ifaces(
            merged_state,
            cur_v4_ifaces.as_slice(),
            cur_v6_ifaces.as_slice(),
            nm_acs,
            nm_devs,
        );
        purge_dns_config(false, cur_v4_ifaces.as_slice(), merged_state)?;
        purge_dns_config(true, cur_v6_ifaces.as_slice(), merged_state)?;
        save_dns_to_iface(v4_iface_name.as_str(), v6_iface_name.as_str(), merged_state)?;
    }
    Ok(())
}

} // verus!
