use crate::dns_state::DnsClientStateView;
use crate::error::ErrorKind;
use crate::ifaces::base::InterfaceType;
use crate::ifaces::inter_ifaces::{index_of_iface, MergedInterfacesView};
use crate::ifaces::merged::MergedInterfaceView;
use crate::ip::model::IpStack;
use crate::nm::dns_model::{
    cur_dns_names, externally_managed, lesser_name, saved_iface, set_dns_refused, unmanaged,
    with_dns, with_ifaces, MergedDnsStateView, MergedNetworkStateView,
};
use crate::nm::nm_dbus::{NmActiveConnection, NmDevice};
use vstd::prelude::*;

verus! {

/// The DNS settings of an interface that holds the search domains and
/// options alone: no name server, and priority 40.
pub open spec fn search_conf(dns: MergedDnsStateView) -> DnsClientStateView {
    DnsClientStateView {
        server: Some(seq![]),
        search: Some(dns.searches),
        options: Some(dns.options),
        priority: Some(40i32),
    }
}

/// Whether a stack can take the search domains: it is dynamic, or, where
/// `auto_only` is false, it is on.
pub open spec fn stack_takes_search(ip: Option<IpStack>, auto_only: bool) -> bool {
    ip is Some && (if auto_only {
        ip->0.is_auto()
    } else {
        ip->0.enabled
    })
}

/// The family whose stack on the interface takes the search domains,
/// IPv6 before IPv4.
pub open spec fn search_family(m: MergedInterfaceView, auto_only: bool) -> Option<bool> {
    if stack_takes_search(m.merged.ipv6, auto_only) {
        Some(true)
    } else if stack_takes_search(m.merged.ipv4, auto_only) {
        Some(false)
    } else {
        None
    }
}

/// The first interface in the order of insertion, from position `from`
/// on, that may hold DNS settings and has a stack that takes the search
/// domains.
pub open spec fn desired_search_target(ifaces: MergedInterfacesView, auto_only: bool, from: int)
    -> Option<Seq<char>>
    decreases ifaces.insert_order.len() - from,
{
    if from < 0 || from >= ifaces.insert_order.len() {
        None
    } else {
        let e = ifaces.insert_order[from];
        if e.1.may_hold_dns() && ifaces.get(e.0) is Some && search_family(
            ifaces.get(e.0)->0,
            auto_only,
        ) is Some {
            Some(e.0)
        } else {
            desired_search_target(ifaces, auto_only, from + 1)
        }
    }
}

/// Whether the interface at position `i` is left as it runs, is no
/// loopback, is managed by the backend alone, and has a stack that takes
/// the search domains.
pub open spec fn current_search_candidate(
    ifaces: MergedInterfacesView,
    auto_only: bool,
    acs: Seq<NmActiveConnection>,
    devs: Seq<NmDevice>,
    i: int,
) -> bool {
    let m = ifaces.kernel_ifaces[i];
    let name = m.merged.name;
    !m.is_changed() && m.merged.iface_type != InterfaceType::Loopback && !externally_managed(
        name,
        acs,
    ) && !unmanaged(name, devs) && ifaces.get(name) is Some && search_family(
        ifaces.get(name)->0,
        auto_only,
    ) is Some
}

/// The least name of such an interface among the first `upto`.
pub open spec fn current_search_target(
    ifaces: MergedInterfacesView,
    auto_only: bool,
    acs: Seq<NmActiveConnection>,
    devs: Seq<NmDevice>,
    upto: int,
) -> Option<Seq<char>>
    decreases upto,
{
    if upto <= 0 || upto > ifaces.kernel_ifaces.len() {
        None
    } else {
        let rest = current_search_target(ifaces, auto_only, acs, devs, upto - 1);
        if current_search_candidate(ifaces, auto_only, acs, devs, upto - 1) {
            Some(lesser_name(ifaces.kernel_ifaces[upto - 1].merged.name, rest))
        } else {
            rest
        }
    }
}

/// The interface that takes the search domains and options: the first
/// fit one in the order of insertion, else the fit one of the least name
/// among those left as they run.
pub open spec fn search_target(
    ifaces: MergedInterfacesView,
    auto_only: bool,
    acs: Seq<NmActiveConnection>,
    devs: Seq<NmDevice>,
) -> Option<Seq<char>> {
    if desired_search_target(ifaces, auto_only, 0) is Some {
        desired_search_target(ifaces, auto_only, 0)
    } else {
        current_search_target(ifaces, auto_only, acs, devs, ifaces.kernel_ifaces.len() as int)
    }
}

/// What putting the search domains and options on the interface that
/// takes them leaves behind, and the kind of the failure where it fails.
/// The interface is marked as changed, and its stack of the family that
/// takes them gets them. Without such an interface this fails with
/// `InvalidArgument`, and the state stays as it is.
pub open spec fn search_stored_by(
    state: MergedNetworkStateView,
    auto_only: bool,
    acs: Seq<NmActiveConnection>,
    devs: Seq<NmDevice>,
) -> (MergedNetworkStateView, Option<ErrorKind>) {
    match search_target(state.interfaces, auto_only, acs, devs) {
        None => (state, Some(ErrorKind::InvalidArgument)),
        Some(name) => {
            let i = index_of_iface(state.interfaces.kernel_ifaces, name, 0);
            let m = state.interfaces.kernel_ifaces[i];
            let placed = saved_iface(m, search_family(m, auto_only)->0, search_conf(state.dns));
            (with_ifaces(state, state.interfaces.kernel_ifaces.update(i, placed.0)), placed.1)
        },
    }
}

/// The first of the holders `cur`, from position `from` on, that can
/// still hold DNS settings of the family and is handed to the backend.
pub open spec fn sticky_search_target(
    ifaces: MergedInterfacesView,
    cur: Seq<Seq<char>>,
    is_ipv6: bool,
    from: int,
) -> Option<Seq<char>>
    decreases cur.len() - from,
{
    if from < 0 || from >= cur.len() {
        None
    } else if ifaces.get(cur[from]) is Some && ifaces.get(cur[from])->0.valid_for_dns(is_ipv6)
        && ifaces.get(cur[from])->0.for_apply is Some {
        Some(cur[from])
    } else {
        sticky_search_target(ifaces, cur, is_ipv6, from + 1)
    }
}

/// What putting the search domains and options on what is applied of
/// the holder `name` leaves behind, and the kind of the failure where it
/// fails: it fails with `Bug`, and the state stays as it is, where what
/// is applied has no stack of the family and there is a search domain
/// or an option.
pub open spec fn search_kept_on(state: MergedNetworkStateView, name: Seq<char>, is_ipv6: bool) -> (
    MergedNetworkStateView,
    Option<ErrorKind>,
) {
    let i = index_of_iface(state.interfaces.kernel_ifaces, name, 0);
    let m = state.interfaces.kernel_ifaces[i];
    let conf = search_conf(state.dns);
    if set_dns_refused(m.for_apply->0, is_ipv6, conf) {
        (state, Some(ErrorKind::Bug))
    } else {
        (
            with_ifaces(
                state,
                state.interfaces.kernel_ifaces.update(
                    i,
                    MergedInterfaceView {
                        for_apply: Some(with_dns(m.for_apply->0, is_ipv6, conf)),
                        ..m
                    },
                ),
            ),
            None,
        )
    }
}

/// What placing search domains and options without name servers leaves
/// behind, and the kind of the failure where it fails. In this order:
/// on an interface that holds DNS settings now, IPv6 before IPv4; on a
/// dynamic interface; on an interface with a stack that is on.
pub open spec fn search_stored(
    state: MergedNetworkStateView,
    acs: Seq<NmActiveConnection>,
    devs: Seq<NmDevice>,
) -> (MergedNetworkStateView, Option<ErrorKind>) {
    let cur6 = cur_dns_names(state.interfaces.kernel_ifaces, true);
    let cur4 = cur_dns_names(state.interfaces.kernel_ifaces, false);
    match sticky_search_target(state.interfaces, cur6, true, 0) {
        Some(n) => search_kept_on(state, n, true),
        None => match sticky_search_target(state.interfaces, cur4, false, 0) {
            Some(n) => search_kept_on(state, n, false),
            None => if search_stored_by(state, true, acs, devs).1 is None {
                search_stored_by(state, true, acs, devs)
            } else {
                search_stored_by(state, false, acs, devs)
            },
        },
    }
}

/// Search domains can always be put on an interface with a stack that
/// takes them.
pub proof fn lemma_search_target_takes(
    m: MergedInterfaceView,
    auto_only: bool,
    conf: DnsClientStateView,
)
    requires
        search_family(m, auto_only) is Some,
    ensures
        saved_iface(m, search_family(m, auto_only)->0, conf).1 is None,
{
}

} // verus!
