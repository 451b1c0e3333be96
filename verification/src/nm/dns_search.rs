use crate::dns_state::DnsClientStateView;
use crate::error::{ErrorKind, NmstateError};
use crate::ifaces::base::InterfaceType;
use crate::ifaces::inter_ifaces::{index_of_iface, MergedInterfaces, MergedInterfacesView};
use crate::ifaces::merged::{MergedInterface, MergedInterfaceView};
use crate::net_state::MergedNetworkState;
use crate::nm::dns::{get_cur_dns_ifaces, is_external_managed, is_unmanaged};
use crate::nm::dns_model::{
    saved_iface, set_dns_refused, with_dns, with_ifaces, DEFAULT_DNS_PRIORITY,
};
use crate::nm::dns_store::{save_iface, set_iface_dns_conf};
use crate::nm::nm_dbus::{NmActiveConnection, NmDevice};
use crate::nm::search_model::{
    current_search_target, desired_search_target, lemma_search_target_takes, search_conf,
    search_family, search_stored, search_stored_by, search_target, sticky_search_target,
};
use crate::text::{clone_texts, opt_text, text_before, to_chars};
use vstd::prelude::*;

verus! {

/// Puts search domains and options, without name servers, on the stack
/// of a family of an interface, and marks the interface as changed.
pub fn set_iface_dns_search_or_option(
    iface: &mut MergedInterface,
    searches: Vec<String>,
    options: Vec<String>,
    is_ipv6: bool,
) -> (r: Result<(), NmstateError>)
    ensures
        ({
            let conf = DnsClientStateView {
                server: Some(seq![]),
                search: Some(searches.deep_view()),
                options: Some(options.deep_view()),
                priority: Some(40i32),
            };
            let placed = saved_iface(old(iface)@, is_ipv6, conf);
            final(iface)@ == placed.0 && (r is Err <==> placed.1 is Some) && (r is Err
                ==> r->Err_0.kind() == placed.1->0)
        }),
{
    let servers: Vec<String> = Vec::new();
    assert(servers.deep_view() =~= Seq::<Seq<char>>::empty());
    save_iface(
        iface,
        is_ipv6,
        servers,
        searches,
        options,
        Some(DEFAULT_DNS_PRIORITY),
    )
}

fn search_family_of(iface: &MergedInterface, auto_only: bool) -> (r: Option<bool>)
    ensures
        r == search_family(iface@, auto_only),
{
    let v6 = match &iface.merged.ipv6 {
        Some(ip) => if auto_only {
            ip.is_auto()
        } else {
            ip.enabled
        },
        None => false,
    };
    if v6 {
        return Some(true);
    }
    let v4 = match &iface.merged.ipv4 {
        Some(ip) => if auto_only {
            ip.is_auto()
        } else {
            ip.enabled
        },
        None => false,
    };
    if v4 {
        Some(false)
    } else {
        None
    }
}

fn find_desired_search_target(merged_ifaces: &MergedInterfaces, auto_only: bool) -> (r: Option<
    String,
>)
    ensures
        opt_text(r) == desired_search_target(merged_ifaces@, auto_only, 0),
{
    let mut i: usize = 0;
    while i < merged_ifaces.insert_order.len()
        invariant
            i <= merged_ifaces.insert_order.len(),
            desired_search_target(merged_ifaces@, auto_only, 0) == desired_search_target(
                merged_ifaces@,
                auto_only,
                i as int,
            ),
        decreases merged_ifaces.insert_order.len() - i,
    {
        let entry = &merged_ifaces.insert_order[i];
        assert(merged_ifaces@.insert_order[i as int] == (entry.0@, entry.1));
        if !entry.1.is_userspace() && entry.1 != InterfaceType::Loopback {
            match merged_ifaces.find(entry.0.as_str()) {
                Some(k) => {
                    if search_family_of(&merged_ifaces.kernel_ifaces[k], auto_only).is_some() {
                        return Some(entry.0.clone());
                    }
                },
                None => {},
            }
        }
        i += 1;
    }
    None
}

fn find_current_search_target(
    merged_ifaces: &MergedInterfaces,
    auto_only: bool,
    nm_acs: &[NmActiveConnection],
    nm_devs: &[NmDevice],
) -> (r: Option<String>)
    ensures
        opt_text(r) == current_search_target(
            merged_ifaces@,
            auto_only,
            nm_acs@,
            nm_devs@,
            merged_ifaces@.kernel_ifaces.len() as int,
        ),
{
    let mut best: Option<String> = None;
    let mut i: usize = 0;
    while i < merged_ifaces.kernel_ifaces.len()
        invariant
            i <= merged_ifaces.kernel_ifaces.len(),
            opt_text(best) == current_search_target(
                merged_ifaces@,
                auto_only,
                nm_acs@,
                nm_devs@,
                i as int,
            ),
        decreases merged_ifaces.kernel_ifaces.len() - i,
    {
        let m = &merged_ifaces.kernel_ifaces[i];
        assert(merged_ifaces@.kernel_ifaces[i as int] == m@);
        let name = m.merged.name();
        let candidate = !m.is_changed() && m.merged.iface_type() != InterfaceType::Loopback
            && !is_external_managed(name, nm_acs) && !is_unmanaged(name, nm_devs)
            && match merged_ifaces.find(name) {
            Some(k) => search_family_of(&merged_ifaces.kernel_ifaces[k], auto_only).is_some(),
            None => false,
        };
        if candidate {
            let take = match &best {
                Some(b) => {
                    let x = to_chars(name);
                    let y = to_chars(b.as_str());
                    text_before(x.as_slice(), y.as_slice())
                },
                None => true,
            };
            if take {
                best = Some(m.merged.name.clone());
            }
        }
        i += 1;
    }
    best
}

fn store_dns_search_or_options_by(
    merged_state: &mut MergedNetworkState,
    auto_only: bool,
    nm_acs: &[NmActiveConnection],
    nm_devs: &[NmDevice],
) -> (r: Result<(), NmstateError>)
    ensures
        ({
            let placed = search_stored_by(old(merged_state)@, auto_only, nm_acs@, nm_devs@);
            final(merged_state)@ == placed.0 && (r is Err <==> placed.1 is Some) && (r is Err
                ==> placed.1 == Some(ErrorKind::InvalidArgument))
        }),
        r is Err ==> r->Err_0.kind() == ErrorKind::InvalidArgument,
        r is Err ==> final(merged_state)@ == old(merged_state)@,
{
    let target = match find_desired_search_target(&merged_state.interfaces, auto_only) {
        Some(n) => Some(n),
        None => find_current_search_target(&merged_state.interfaces, auto_only, nm_acs, nm_devs),
    };
    let name = match target {
        Some(n) => n,
        None => {
            return Err(
                NmstateError::with_text(
                    ErrorKind::InvalidArgument,
                    "Failed to find suitable interface for DNS searches or options",
                ),
            );
        },
    };
    proof {
        lemma_search_target_found(merged_state@.interfaces, auto_only, nm_acs@, nm_devs@);
    }
    let ghost before = merged_state@;
    match merged_state.interfaces.find(name.as_str()) {
        Some(k) => {
            let family = search_family_of(&merged_state.interfaces.kernel_ifaces[k], auto_only);
            match family {
                Some(is_ipv6) => {
                    let searches = clone_texts(&merged_state.dns.searches);
                    let options = clone_texts(&merged_state.dns.options);
                    proof {
                        lemma_search_target_takes(
                            before.interfaces.kernel_ifaces[k as int],
                            auto_only,
                            search_conf(before.dns),
                        );
                    }
                    let r = set_iface_dns_search_or_option(
                        &mut merged_state.interfaces.kernel_ifaces[k],
                        searches,
                        options,
                        is_ipv6,
                    );
                    proof {
                        assert(merged_state@.interfaces.kernel_ifaces
                            =~= before.interfaces.kernel_ifaces.update(
                            k as int,
                            merged_state@.interfaces.kernel_ifaces[k as int],
                        ));
                    }
                    r
                },
                None => Ok(()),
            }
        },
        None => Ok(()),
    }
}

/// The interface that takes the search domains is among the interfaces,
/// and has a stack that takes them.
pub proof fn lemma_search_target_found(
    ifaces: MergedInterfacesView,
    auto_only: bool,
    acs: Seq<NmActiveConnection>,
    devs: Seq<NmDevice>,
)
    ensures
        search_target(ifaces, auto_only, acs, devs) is Some ==> {
            let name = search_target(ifaces, auto_only, acs, devs)->0;
            ifaces.get(name) is Some && search_family(ifaces.get(name)->0, auto_only) is Some
        },
{
    lemma_desired_search_target_found(ifaces, auto_only, 0);
    lemma_current_search_target_found(ifaces, auto_only, acs, devs, ifaces.kernel_ifaces.len() as int);
}

proof fn lemma_desired_search_target_found(
    ifaces: MergedInterfacesView,
    auto_only: bool,
    from: int,
)
    requires
        0 <= from,
    ensures
        desired_search_target(ifaces, auto_only, from) is Some ==> {
            let name = desired_search_target(ifaces, auto_only, from)->0;
            ifaces.get(name) is Some && search_family(ifaces.get(name)->0, auto_only) is Some
        },
    decreases ifaces.insert_order.len() - from,
{
    if from < ifaces.insert_order.len() {
        lemma_desired_search_target_found(ifaces, auto_only, from + 1);
    }
}

proof fn lemma_current_search_target_found(
    ifaces: MergedInterfacesView,
    auto_only: bool,
    acs: Seq<NmActiveConnection>,
    devs: Seq<NmDevice>,
    upto: int,
)
    requires
        0 <= upto <= ifaces.kernel_ifaces.len(),
    ensures
        current_search_target(ifaces, auto_only, acs, devs, upto) is Some ==> {
            let name = current_search_target(ifaces, auto_only, acs, devs, upto)->0;
            ifaces.get(name) is Some && search_family(ifaces.get(name)->0, auto_only) is Some
        },
    decreases upto,
{
    if upto > 0 {
        lemma_current_search_target_found(ifaces, auto_only, acs, devs, upto - 1);
    }
}

/// Puts the search domains and options on a dynamic interface.
pub fn store_dns_search_or_options_to_auto_iface(
    merged_state: &mut MergedNetworkState,
    nm_acs: &[NmActiveConnection],
    nm_devs: &[NmDevice],
) -> (r: Result<(), NmstateError>)
    ensures
        ({
            let placed = search_stored_by(old(merged_state)@, true, nm_acs@, nm_devs@);
            final(merged_state)@ == placed.0 && (r is Err <==> placed.1 is Some) && (r is Err
                ==> placed.1 == Some(ErrorKind::InvalidArgument))
        }),
        r is Err ==> r->Err_0.kind() == ErrorKind::InvalidArgument,
        r is Err ==> final(merged_state)@ == old(merged_state)@,
{
    store_dns_search_or_options_by(merged_state, true, nm_acs, nm_devs)
}

/// Puts the search domains and options on an interface with an IP stack
/// that is on.
pub fn store_dns_search_or_options_to_ip_enabled_iface(
    merged_state: &mut MergedNetworkState,
    nm_acs: &[NmActiveConnection],
    nm_devs: &[NmDevice],
) -> (r: Result<(), NmstateError>)
    ensures
        ({
            let placed = search_stored_by(old(merged_state)@, false, nm_acs@, nm_devs@);
            final(merged_state)@ == placed.0 && (r is Err <==> placed.1 is Some) && (r is Err
                ==> placed.1 == Some(ErrorKind::InvalidArgument))
        }),
        r is Err ==> r->Err_0.kind() == ErrorKind::InvalidArgument,
        r is Err ==> final(merged_state)@ == old(merged_state)@,
{
    store_dns_search_or_options_by(merged_state, false, nm_acs, nm_devs)
}

fn find_sticky_search_target(
    merged_ifaces: &MergedInterfaces,
    cur: &Vec<String>,
    is_ipv6: bool,
) -> (r: Option<usize>)
    ensures
        match r {
            Some(k) => sticky_search_target(merged_ifaces@, cur.deep_view(), is_ipv6, 0) is Some
                && k == index_of_iface(
                merged_ifaces@.kernel_ifaces,
                sticky_search_target(merged_ifaces@, cur.deep_view(), is_ipv6, 0)->0,
                0,
            ) && k < merged_ifaces@.kernel_ifaces.len()
                && merged_ifaces@.kernel_ifaces[k as int].for_apply is Some,
            None => sticky_search_target(merged_ifaces@, cur.deep_view(), is_ipv6, 0) is None,
        },
{
    let mut i: usize = 0;
    while i < cur.len()
        invariant
            i <= cur.len(),
            sticky_search_target(merged_ifaces@, cur.deep_view(), is_ipv6, 0)
                == sticky_search_target(merged_ifaces@, cur.deep_view(), is_ipv6, i as int),
        decreases cur.len() - i,
    {
        assert(cur.deep_view()[i as int] == cur@[i as int]@);
        match merged_ifaces.find(cur[i].as_str()) {
            Some(k) => {
                let iface = &merged_ifaces.kernel_ifaces[k];
                if iface.is_iface_valid_for_dns(is_ipv6) && iface.for_apply.is_some() {
                    return Some(k);
                }
            },
            None => {},
        }
        i += 1;
    }
    None
}

fn keep_search_on(merged_state: &mut MergedNetworkState, k: usize, is_ipv6: bool) -> (r: Result<
    (),
    NmstateError,
>)
    requires
        k < old(merged_state)@.interfaces.kernel_ifaces.len(),
        old(merged_state)@.interfaces.kernel_ifaces[k as int].for_apply is Some,
    ensures
        ({
            let state = old(merged_state)@;
            let m = state.interfaces.kernel_ifaces[k as int];
            let conf = search_conf(state.dns);
            if set_dns_refused(m.for_apply->0, is_ipv6, conf) {
                r is Err && r->Err_0.kind() == ErrorKind::Bug && final(merged_state)@ == state
            } else {
                r is Ok && final(merged_state)@ == with_ifaces(
                    state,
                    state.interfaces.kernel_ifaces.update(
                        k as int,
                        MergedInterfaceView {
                            for_apply: Some(
                                with_dns(m.for_apply->0, is_ipv6, conf),
                            ),
                            ..m
                        },
                    ),
                )
            }
        }),
{
    let ghost before = merged_state@;
    let searches = clone_texts(&merged_state.dns.searches);
    let options = clone_texts(&merged_state.dns.options);
    let servers: Vec<String> = Vec::new();
    assert(servers.deep_view() =~= Seq::<Seq<char>>::empty());
    let r = match merged_state.interfaces.kernel_ifaces[k].for_apply.as_mut() {
        Some(apply_iface) => set_iface_dns_conf(
            is_ipv6,
            apply_iface,
            servers,
            searches,
            options,
            Some(DEFAULT_DNS_PRIORITY),
        ),
        None => Ok(()),
    };
    proof {
        assert(merged_state@.interfaces.kernel_ifaces =~= before.interfaces.kernel_ifaces.update(
            k as int,
            merged_state@.interfaces.kernel_ifaces[k as int],
        ));
        if r is Err {
            assert(merged_state@.interfaces.kernel_ifaces =~= before.interfaces.kernel_ifaces);
        }
    }
    r
}

/// Places search domains and options that come without name servers.
pub fn store_dns_search_or_option_to_iface(
    merged_state: &mut MergedNetworkState,
    nm_acs: &[NmActiveConnection],
    nm_devs: &[NmDevice],
) -> (r: Result<(), NmstateError>)
    ensures
        ({
            let placed = search_stored(old(merged_state)@, nm_acs@, nm_devs@);
            final(merged_state)@ == placed.0 && (r is Err <==> placed.1 is Some) && (r is Err
                ==> r->Err_0.kind() == placed.1->0)
        }),
        r is Err ==> final(merged_state)@ == old(merged_state)@,
{
    let (cur_v4_ifaces, cur_v6_ifaces) = get_cur_dns_ifaces(&merged_state.interfaces);
    match find_sticky_search_target(&merged_state.interfaces, &cur_v6_ifaces, true) {
        Some(k) => {
            return keep_search_on(merged_state, k, true);
        },
        None => {},
    }
    match find_sticky_search_target(&merged_state.interfaces, &cur_v4_ifaces, false) {
        Some(k) => {
            return keep_search_on(merged_state, k, false);
        },
        None => {},
    }
    if store_dns_search_or_options_to_auto_iface(merged_state, nm_acs, nm_devs).is_ok() {
        return Ok(());
    }
    store_dns_search_or_options_to_ip_enabled_iface(merged_state, nm_acs, nm_devs)
}

} // verus!
