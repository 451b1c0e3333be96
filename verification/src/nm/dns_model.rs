use crate::addr_fmt::ipv6_text;
use crate::dns::link_local_server;
use crate::dns_state::DnsClientStateView;
use crate::error::ErrorKind;
use crate::ifaces::base::{BaseInterfaceView, InterfaceType};
use crate::ifaces::inter_ifaces::{index_of_iface, MergedInterfacesView};
use crate::ifaces::merged::MergedInterfaceView;
use crate::ip::model::IpStack;
use crate::nm::nm_dbus::{is_kernel_iface_type, NmActiveConnection, NmDevice, NmDeviceState};
use crate::text::{split_seq, text_lt};
use vstd::prelude::*;

verus! {

/// The priority of the DNS settings on the interface that holds the
/// preferred family.
pub const DEFAULT_DNS_PRIORITY: i32 = 40;

/// What the merged global DNS configuration holds.
pub struct MergedDnsStateView {
    pub servers: Seq<Seq<char>>,
    pub searches: Seq<Seq<char>>,
    pub options: Seq<Seq<char>>,
    pub changed: bool,
}

/// What the merged state of the network holds.
pub struct MergedNetworkStateView {
    pub interfaces: MergedInterfacesView,
    pub dns: MergedDnsStateView,
}

/// Whether the text of a name server is taken as an IPv6 address: it
/// holds a colon.
pub open spec fn is_ipv6_text(s: Seq<char>) -> bool {
    s.contains(':')
}

/// The number of runs of one family along a list of name servers.
pub open spec fn family_runs(srvs: Seq<Seq<char>>) -> nat
    decreases srvs.len(),
{
    if srvs.len() == 0 {
        0
    } else if srvs.len() == 1 {
        1
    } else if is_ipv6_text(srvs.last()) != is_ipv6_text(srvs[srvs.len() - 2]) {
        family_runs(srvs.drop_last()) + 1
    } else {
        family_runs(srvs.drop_last())
    }
}

/// Whether name servers of one family stand between those of the other:
/// the families form three runs or more, so that the pattern of the runs
/// holds `4-6-4` or `6-4-6`.
pub open spec fn is_mixed(srvs: Seq<Seq<char>>) -> bool {
    family_runs(srvs) >= 3
}

/// The name servers of one family, in their order.
pub open spec fn servers_of(srvs: Seq<Seq<char>>, is_ipv6: bool) -> Seq<Seq<char>>
    decreases srvs.len(),
{
    if srvs.len() == 0 {
        seq![]
    } else if is_ipv6_text(srvs.last()) == is_ipv6 {
        servers_of(srvs.drop_last(), is_ipv6).push(srvs.last())
    } else {
        servers_of(srvs.drop_last(), is_ipv6)
    }
}

/// Whether the family of the first name server is IPv6.
pub open spec fn prefers_ipv6(srvs: Seq<Seq<char>>) -> bool {
    srvs.len() > 0 && is_ipv6_text(srvs[0])
}

/// Whether a stack can hold DNS settings: it is on, and static or
/// dynamic.
pub open spec fn stack_valid_for_dns(ip: IpStack) -> bool {
    ip.enabled && (ip.is_static() || ip.is_auto())
}

/// Whether a stack is a first choice for DNS settings: it is on and
/// static, or dynamic without taking DNS settings from the network.
pub open spec fn stack_preferred_for_dns(ip: IpStack) -> bool {
    ip.enabled && (ip.is_static() || (ip.is_auto() && ip.auto_dns == Some(false)))
}

impl MergedInterfaceView {
    /// Whether the interface as it will be can hold the DNS settings of a
    /// family.
    pub open spec fn valid_for_dns(self, is_ipv6: bool) -> bool {
        match self.merged.stack(is_ipv6) {
            Some(ip) => stack_valid_for_dns(ip),
            None => false,
        }
    }

    /// Whether the interface as it is applied is a first choice for the
    /// DNS settings of a family.
    pub open spec fn preferred_for_dns(self, is_ipv6: bool) -> bool {
        match self.for_apply {
            Some(a) => match a.stack(is_ipv6) {
                Some(ip) => stack_preferred_for_dns(ip),
                None => false,
            },
            None => false,
        }
    }

    /// Whether the running interface holds DNS settings of a family.
    pub open spec fn holds_dns(self, is_ipv6: bool) -> bool {
        match self.current {
            Some(c) => match c.stack(is_ipv6) {
                Some(ip) => ip.enabled && ip.dns is Some && !ip.dns->0.is_null(),
                None => false,
            },
            None => false,
        }
    }
}

/// The names of the running interfaces that hold DNS settings of a
/// family, each once, in the order of the interfaces.
pub open spec fn cur_dns_names(ifaces: Seq<MergedInterfaceView>, is_ipv6: bool) -> Seq<Seq<char>>
    decreases ifaces.len(),
{
    if ifaces.len() == 0 {
        seq![]
    } else {
        let rest = cur_dns_names(ifaces.drop_last(), is_ipv6);
        let m = ifaces.last();
        if m.holds_dns(is_ipv6) && !rest.contains(m.current->0.name) {
            rest.push(m.current->0.name)
        } else {
            rest
        }
    }
}

/// Whether none of the holders named in `names` is handed to the backend
/// in a state in which it cannot hold the DNS settings of the family.
pub open spec fn holders_still_valid(
    ifaces: MergedInterfacesView,
    names: Seq<Seq<char>>,
    is_ipv6: bool,
) -> bool {
    forall|i: int|
        0 <= i < names.len() ==> match ifaces.get(#[trigger] names[i]) {
            Some(m) => !(m.is_changed() && !m.valid_for_dns(is_ipv6)),
            None => true,
        }
}

/// Whether the interfaces that hold DNS settings now can go on holding
/// them.
pub open spec fn cur_holders_still_valid(ifaces: MergedInterfacesView) -> bool {
    holders_still_valid(ifaces, cur_dns_names(ifaces.kernel_ifaces, false), false)
        && holders_still_valid(ifaces, cur_dns_names(ifaces.kernel_ifaces, true), true)
}

/// Whether some active connection shows that the interface named `name`
/// was set up outside the backend.
pub open spec fn externally_managed(name: Seq<char>, acs: Seq<NmActiveConnection>) -> bool {
    exists|i: int|
        0 <= i < acs.len() && (#[trigger] acs[i]).iface_name@ == name && is_kernel_iface_type(
            acs[i].iface_type@,
        ) && acs[i].state_flags & 0x80 > 0
}

/// Whether some device shows that the backend does not manage the
/// interface named `name`.
pub open spec fn unmanaged(name: Seq<char>, devs: Seq<NmDevice>) -> bool {
    exists|i: int|
        0 <= i < devs.len() && (#[trigger] devs[i]).name@ == name && is_kernel_iface_type(
            devs[i].iface_type@,
        ) && devs[i].state == NmDeviceState::Unmanaged
}

/// The first of the holders `cur`, from position `from` on, that is
/// handed to the backend and can still hold the DNS settings.
pub open spec fn sticky_holder(
    ifaces: MergedInterfacesView,
    cur: Seq<Seq<char>>,
    is_ipv6: bool,
    from: int,
) -> Option<Seq<char>>
    decreases cur.len() - from,
{
    if from < 0 || from >= cur.len() {
        None
    } else if ifaces.get(cur[from]) is Some && ifaces.get(cur[from])->0.is_changed() && ifaces.get(
        cur[from],
    )->0.valid_for_dns(is_ipv6) {
        Some(cur[from])
    } else {
        sticky_holder(ifaces, cur, is_ipv6, from + 1)
    }
}

/// Whether the entry at position `i` of the order of insertion names an
/// interface that is handed to the backend and is a first choice for the
/// DNS settings, or, where `preferred` is false, can hold them.
pub open spec fn desired_candidate(
    ifaces: MergedInterfacesView,
    is_ipv6: bool,
    preferred: bool,
    i: int,
) -> bool {
    let e = ifaces.insert_order[i];
    e.1.may_hold_dns() && ifaces.get(e.0) is Some && ifaces.get(e.0)->0.is_changed() && (
    if preferred {
        ifaces.get(e.0)->0.preferred_for_dns(is_ipv6)
    } else {
        ifaces.get(e.0)->0.valid_for_dns(is_ipv6)
    })
}

/// The first such interface in the order of insertion, from position
/// `from` on.
pub open spec fn desired_holder(
    ifaces: MergedInterfacesView,
    is_ipv6: bool,
    preferred: bool,
    from: int,
) -> Option<Seq<char>>
    decreases ifaces.insert_order.len() - from,
{
    if from < 0 || from >= ifaces.insert_order.len() {
        None
    } else if desired_candidate(ifaces, is_ipv6, preferred, from) {
        Some(ifaces.insert_order[from].0)
    } else {
        desired_holder(ifaces, is_ipv6, preferred, from + 1)
    }
}

/// Whether the interface at position `i` is left as it runs, is no
/// loopback, can hold the DNS settings, and is managed by the backend
/// alone.
pub open spec fn current_candidate(
    ifaces: MergedInterfacesView,
    is_ipv6: bool,
    acs: Seq<NmActiveConnection>,
    devs: Seq<NmDevice>,
    i: int,
) -> bool {
    let m = ifaces.kernel_ifaces[i];
    let name = m.merged.name;
    !m.is_changed() && m.merged.iface_type != InterfaceType::Loopback && ifaces.get(name) is Some
        && ifaces.get(name)->0.valid_for_dns(is_ipv6) && !externally_managed(name, acs)
        && !unmanaged(name, devs)
}

/// The lesser of a name and an optional other, in the order of
/// dictionaries.
pub open spec fn lesser_name(name: Seq<char>, other: Option<Seq<char>>) -> Seq<char> {
    match other {
        Some(o) => if text_lt(name, o) {
            name
        } else {
            o
        },
        None => name,
    }
}

/// The least name, in the order of dictionaries, of such an interface
/// among the first `upto` interfaces.
pub open spec fn current_holder(
    ifaces: MergedInterfacesView,
    is_ipv6: bool,
    acs: Seq<NmActiveConnection>,
    devs: Seq<NmDevice>,
    upto: int,
) -> Option<Seq<char>>
    decreases upto,
{
    if upto <= 0 || upto > ifaces.kernel_ifaces.len() {
        None
    } else {
        let rest = current_holder(ifaces, is_ipv6, acs, devs, upto - 1);
        if current_candidate(ifaces, is_ipv6, acs, devs, upto - 1) {
            Some(lesser_name(ifaces.kernel_ifaces[upto - 1].merged.name, rest))
        } else {
            rest
        }
    }
}

/// The interface that holds the DNS settings of a family. In this order:
/// one that holds them now, is handed to the backend and can still hold
/// them; the first in the order of insertion that is handed to the
/// backend and is a first choice; the first there that is handed to the
/// backend and can hold them; of those left as they run, the one of the
/// least name that can hold them and that the backend alone manages.
pub open spec fn dns_holder(
    ifaces: MergedInterfacesView,
    cur: Seq<Seq<char>>,
    is_ipv6: bool,
    acs: Seq<NmActiveConnection>,
    devs: Seq<NmDevice>,
) -> Option<Seq<char>> {
    if sticky_holder(ifaces, cur, is_ipv6, 0) is Some {
        sticky_holder(ifaces, cur, is_ipv6, 0)
    } else if desired_holder(ifaces, is_ipv6, true, 0) is Some {
        desired_holder(ifaces, is_ipv6, true, 0)
    } else if desired_holder(ifaces, is_ipv6, false, 0) is Some {
        desired_holder(ifaces, is_ipv6, false, 0)
    } else {
        current_holder(ifaces, is_ipv6, acs, devs, ifaces.kernel_ifaces.len() as int)
    }
}

/// The interface that the first name server with an interface behind a
/// `%` names, from position `from` on: the text behind the `%`, where
/// there is one `%` and text behind it.
pub open spec fn link_local_iface(srvs: Seq<Seq<char>>, from: int) -> Option<Seq<char>>
    decreases srvs.len() - from,
{
    if from < 0 || from >= srvs.len() {
        None
    } else {
        let p = split_seq(srvs[from], '%');
        if p.len() == 2 && p[1].len() > 0 {
            Some(p[1])
        } else {
            link_local_iface(srvs, from + 1)
        }
    }
}

/// The name `o`, or the empty name where there is none.
pub open spec fn name_or_empty(o: Option<Seq<char>>) -> Seq<char> {
    match o {
        Some(n) => n,
        None => seq![],
    }
}

/// The holders of the two families: for IPv6 the interface that a name
/// server names behind a `%`, if one does; the empty name where no
/// interface is found.
pub open spec fn reselected(
    state: MergedNetworkStateView,
    cur_v4: Seq<Seq<char>>,
    cur_v6: Seq<Seq<char>>,
    acs: Seq<NmActiveConnection>,
    devs: Seq<NmDevice>,
) -> (Seq<char>, Seq<char>) {
    (
        name_or_empty(dns_holder(state.interfaces, cur_v4, false, acs, devs)),
        match link_local_iface(state.dns.servers, 0) {
            Some(n) => n,
            None => name_or_empty(dns_holder(state.interfaces, cur_v6, true, acs, devs)),
        },
    )
}

/// The interface `a` with the DNS settings `conf` on its stack of the
/// family; an interface without that stack stays as it is.
pub open spec fn with_dns(a: BaseInterfaceView, is_ipv6: bool, conf: DnsClientStateView)
    -> BaseInterfaceView {
    match a.stack(is_ipv6) {
        Some(ip) => a.with_stack(is_ipv6, Some(IpStack { dns: Some(conf), ..ip })),
        None => a,
    }
}

/// Whether DNS settings cannot be put on the interface: it lacks the
/// stack of the family, and the settings are more than a purge.
pub open spec fn set_dns_refused(a: BaseInterfaceView, is_ipv6: bool, conf: DnsClientStateView)
    -> bool {
    a.stack(is_ipv6) is None && !conf.is_purge()
}

/// The interface `a` with its stack of the family taken from `merged`
/// where it has none.
pub open spec fn hoisted_stack(a: BaseInterfaceView, merged: BaseInterfaceView, is_ipv6: bool)
    -> BaseInterfaceView {
    if a.stack(is_ipv6) is None {
        a.with_stack(is_ipv6, merged.stack(is_ipv6))
    } else {
        a
    }
}

/// The interface with the DNS settings of the family cleared. An absent
/// interface stays as it is; any other is marked as changed, and where
/// what is applied can hold IP configuration, its stack of the family,
/// taken from the merged view if need be, gets the empty settings.
pub open spec fn purged_iface(m: MergedInterfaceView, is_ipv6: bool) -> MergedInterfaceView {
    if m.merged.is_absent() {
        m
    } else {
        let c = if m.is_changed() {
            m
        } else {
            m.marked_as_changed()
        };
        if c.for_apply is Some && c.for_apply->0.can_have_ip() {
            MergedInterfaceView {
                for_apply: Some(
                    with_dns(
                        hoisted_stack(c.for_apply->0, c.merged, is_ipv6),
                        is_ipv6,
                        DnsClientStateView::empty(),
                    ),
                ),
                ..c
            }
        } else {
            c
        }
    }
}

/// The interfaces after the DNS settings of the family were cleared on
/// those named by the first `upto` of `names`.
pub open spec fn purged(
    ifaces: Seq<MergedInterfaceView>,
    names: Seq<Seq<char>>,
    is_ipv6: bool,
    upto: int,
) -> Seq<MergedInterfaceView>
    decreases upto,
{
    if upto <= 0 || upto > names.len() {
        ifaces
    } else {
        let prev = purged(ifaces, names, is_ipv6, upto - 1);
        let i = index_of_iface(prev, names[upto - 1], 0);
        if i < prev.len() {
            prev.update(i, purged_iface(prev[i], is_ipv6))
        } else {
            prev
        }
    }
}

/// The name server as it is stored: without the interface behind a `%`,
/// its address in canonical text. `None` where the address before a `%`
/// is no IPv6 address.
pub open spec fn stored_server(s: Seq<char>) -> Option<Seq<char>> {
    match link_local_server(s) {
        Some(Some(e)) => Some(ipv6_text(e.0)),
        Some(None) => Some(s),
        None => None,
    }
}

/// The name servers as they are stored; `None` where one of them cannot
/// be.
pub open spec fn stored_servers(srvs: Seq<Seq<char>>) -> Option<Seq<Seq<char>>>
    decreases srvs.len(),
{
    if srvs.len() == 0 {
        Some(seq![])
    } else {
        match (stored_servers(srvs.drop_last()), stored_server(srvs.last())) {
            (Some(h), Some(s)) => Some(h.push(s)),
            _ => None,
        }
    }
}

/// The DNS settings that a holder gets: its name servers; the search
/// domains and options and priority 40 where its family is the
/// preferred one, else neither of them and priority 50.
pub open spec fn holder_conf(dns: MergedDnsStateView, servers: Seq<Seq<char>>, preferred: bool)
    -> DnsClientStateView {
    DnsClientStateView {
        server: Some(servers),
        search: Some(
            if preferred {
                dns.searches
            } else {
                seq![]
            },
        ),
        options: Some(
            if preferred {
                dns.options
            } else {
                seq![]
            },
        ),
        priority: Some(
            if preferred {
                40i32
            } else {
                50i32
            },
        ),
    }
}

/// What putting DNS settings on an interface leaves behind, and the kind
/// of the failure where it fails. The interface is marked as changed,
/// and the stack of the family of what is applied is taken from the
/// merged view if need be; then it gets the settings. This fails with
/// `Bug` where there is no such stack.
pub open spec fn saved_iface(m: MergedInterfaceView, is_ipv6: bool, conf: DnsClientStateView) -> (
    MergedInterfaceView,
    Option<ErrorKind>,
) {
    let c = if m.is_changed() {
        m
    } else {
        m.marked_as_changed()
    };
    match c.for_apply {
        Some(a) => {
            let h = hoisted_stack(a, c.merged, is_ipv6);
            if set_dns_refused(h, is_ipv6, conf) {
                (MergedInterfaceView { for_apply: Some(h), ..c }, Some(ErrorKind::Bug))
            } else {
                (MergedInterfaceView { for_apply: Some(with_dns(h, is_ipv6, conf)), ..c }, None)
            }
        },
        None => (c, None),
    }
}

/// The state with the interfaces replaced.
pub open spec fn with_ifaces(state: MergedNetworkStateView, ifaces: Seq<MergedInterfaceView>)
    -> MergedNetworkStateView {
    MergedNetworkStateView {
        interfaces: MergedInterfacesView { kernel_ifaces: ifaces, ..state.interfaces },
        ..state
    }
}

/// What putting the name servers of a family on their holder leaves
/// behind, and the kind of the failure where it fails. This fails with
/// `InvalidArgument` where a name server cannot be stored or no holder
/// was found, and with `Bug` where the holder is not among the
/// interfaces or has no stack of the family; until the holder is found,
/// the state stays as it is.
pub open spec fn saved_one(
    state: MergedNetworkStateView,
    is_ipv6: bool,
    iface_name: Seq<char>,
    servers: Seq<Seq<char>>,
    preferred: bool,
) -> (MergedNetworkStateView, Option<ErrorKind>) {
    match stored_servers(servers) {
        None => (state, Some(ErrorKind::InvalidArgument)),
        Some(srvs) => if iface_name.len() == 0 {
            (state, Some(ErrorKind::InvalidArgument))
        } else {
            let i = index_of_iface(state.interfaces.kernel_ifaces, iface_name, 0);
            if i >= state.interfaces.kernel_ifaces.len() {
                (state, Some(ErrorKind::Bug))
            } else {
                let placed = saved_iface(
                    state.interfaces.kernel_ifaces[i],
                    is_ipv6,
                    holder_conf(state.dns, srvs, preferred),
                );
                (
                    with_ifaces(state, state.interfaces.kernel_ifaces.update(i, placed.0)),
                    placed.1,
                )
            }
        },
    }
}

/// What putting the name servers on the two holders leaves behind, and
/// the kind of the failure where it fails. The name servers are split
/// by family; those of IPv6 are placed first, and those of IPv4 only
/// where that did not fail. The family of the first name server is the
/// preferred one.
pub open spec fn saved(state: MergedNetworkStateView, v4_name: Seq<char>, v6_name: Seq<char>) -> (
    MergedNetworkStateView,
    Option<ErrorKind>,
) {
    let v6 = servers_of(state.dns.servers, true);
    let v4 = servers_of(state.dns.servers, false);
    let pref6 = prefers_ipv6(state.dns.servers);
    let first = if v6.len() > 0 {
        saved_one(state, true, v6_name, v6, pref6)
    } else {
        (state, None)
    };
    if first.1 is None && v4.len() > 0 {
        saved_one(first.0, false, v4_name, v4, !pref6)
    } else {
        first
    }
}

/// What placing the global name servers leaves behind, and the kind of
/// the failure where it fails. Nothing is done unless the DNS
/// configuration changed or a holder can no longer hold it. Name servers
/// of one family between those of the other are refused with
/// `NotImplementedError`, and the state stays as it is. Else the holders
/// are chosen, the DNS settings are cleared on all interfaces that hold
/// some now, and the name servers are put on the holders.
pub open spec fn stored(
    state: MergedNetworkStateView,
    acs: Seq<NmActiveConnection>,
    devs: Seq<NmDevice>,
) -> (MergedNetworkStateView, Option<ErrorKind>) {
    if state.dns.changed || !cur_holders_still_valid(state.interfaces) {
        if is_mixed(state.dns.servers) {
            (state, Some(ErrorKind::NotImplementedError))
        } else {
            let cur4 = cur_dns_names(state.interfaces.kernel_ifaces, false);
            let cur6 = cur_dns_names(state.interfaces.kernel_ifaces, true);
            let names = reselected(state, cur4, cur6, acs, devs);
            let cleared4 = purged(state.interfaces.kernel_ifaces, cur4, false, cur4.len() as int);
            let cleared6 = purged(cleared4, cur6, true, cur6.len() as int);
            saved(with_ifaces(state, cleared6), names.0, names.1)
        }
    } else {
        (state, None)
    }
}

} // verus!
