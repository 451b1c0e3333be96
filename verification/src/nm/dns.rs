use crate::dns::is_ipv6_addr;
use crate::ifaces::base::InterfaceType;
use crate::ifaces::inter_ifaces::MergedInterfaces;
use crate::ifaces::merged::MergedInterface;
use crate::net_state::MergedNetworkState;
use crate::nm::dns_model::{
    cur_dns_names, cur_holders_still_valid, current_holder, desired_holder, dns_holder,
    externally_managed, family_runs, holders_still_valid, is_ipv6_text, is_mixed, link_local_iface,
    name_or_empty, reselected, sticky_holder, unmanaged,
};
use crate::nm::nm_dbus::{
    is_kernel_iface_type, is_supported_kernel_iface_type, NmActiveConnection, NmDevice,
    NmDeviceState, NM_ACTIVATION_STATE_FLAG_EXTERNAL,
};
use crate::text::{opt_text, split_ranges, str_eq, text_before, to_chars};
use vstd::prelude::*;
use vstd::string::StrSliceExecFns;

verus! {

/// Whether name servers of one family stand between those of the other.
pub fn is_mixed_dns_servers(srvs: &[String]) -> (r: bool)
    ensures
        r == is_mixed(srvs.deep_view()),
{
    let ghost all = srvs.deep_view();
    let mut runs: usize = 0;
    let mut last_v6: bool = false;
    let mut i: usize = 0;
    assert(all.take(0) =~= Seq::<Seq<char>>::empty());
    while i < srvs.len()
        invariant
            i <= srvs.len(),
            all == srvs.deep_view(),
            runs <= i,
            runs as nat == family_runs(all.take(i as int)),
            i > 0 ==> last_v6 == is_ipv6_text(all[i - 1]),
        decreases srvs.len() - i,
    {
        let v6 = is_ipv6_addr(srvs[i].as_str());
        proof {
            let next = all.take(i + 1);
            assert(next.drop_last() =~= all.take(i as int));
            assert(next.last() == all[i as int]);
            if i > 0 {
                assert(next[next.len() - 2] == all[i - 1]);
            }
        }
        if i == 0 || v6 != last_v6 {
            runs = runs + 1;
        }
        last_v6 = v6;
        i += 1;
    }
    assert(all.take(i as int) =~= all);
    runs >= 3
}

/// Whether a list of names holds `s`.
pub fn texts_contain(list: &Vec<String>, s: &str) -> (r: bool)
    ensures
        r == list.deep_view().contains(s@),
{
    let mut i: usize = 0;
    while i < list.len()
        invariant
            i <= list.len(),
            forall|j: int| 0 <= j < i ==> list.deep_view()[j] != s@,
        decreases list.len() - i,
    {
        if str_eq(list[i].as_str(), s) {
            assert(list.deep_view()[i as int] == s@);
            return true;
        }
        i += 1;
    }
    false
}

fn holds_dns(iface: &MergedInterface, is_ipv6: bool) -> (r: bool)
    ensures
        r == iface@.holds_dns(is_ipv6),
{
    match &iface.current {
        Some(c) => if is_ipv6 {
            match &c.ipv6 {
                Some(ip) => ip.enabled && match &ip.dns {
                    Some(d) => !d.is_null(),
                    None => false,
                },
                None => false,
            }
        } else {
            match &c.ipv4 {
                Some(ip) => ip.enabled && match &ip.dns {
                    Some(d) => !d.is_null(),
                    None => false,
                },
                None => false,
            }
        },
        None => false,
    }
}

fn cur_dns_ifaces_of(merged_ifaces: &MergedInterfaces, is_ipv6: bool) -> (r: Vec<String>)
    ensures
        r.deep_view() == cur_dns_names(merged_ifaces@.kernel_ifaces, is_ipv6),
{
    let ghost all = merged_ifaces@.kernel_ifaces;
    let mut r: Vec<String> = Vec::new();
    let mut i: usize = 0;
    assert(all.take(0) =~= Seq::empty());
    assert(r.deep_view() =~= cur_dns_names(all.take(0), is_ipv6));
    while i < merged_ifaces.kernel_ifaces.len()
        invariant
            i <= merged_ifaces.kernel_ifaces.len(),
            all == merged_ifaces@.kernel_ifaces,
            r.deep_view() == cur_dns_names(all.take(i as int), is_ipv6),
        decreases merged_ifaces.kernel_ifaces.len() - i,
    {
        let iface = &merged_ifaces.kernel_ifaces[i];
        proof {
            let next = all.take(i + 1);
            assert(next.drop_last() =~= all.take(i as int));
            assert(next.last() == iface@);
        }
        if holds_dns(iface, is_ipv6) {
            match &iface.current {
                Some(c) => {
                    if !texts_contain(&r, c.name()) {
                        let ghost before = r.deep_view();
                        r.push(c.name.clone());
                        assert(r.deep_view() =~= before.push(c@.name));
                    }
                },
                None => {},
            }
        }
        i += 1;
    }
    assert(all.take(i as int) =~= all);
    r
}

/// The names of the running interfaces that hold DNS settings, for IPv4
/// and for IPv6.
pub fn get_cur_dns_ifaces(merged_ifaces: &MergedInterfaces) -> (r: (Vec<String>, Vec<String>))
    ensures
        r.0.deep_view() == cur_dns_names(merged_ifaces@.kernel_ifaces, false),
        r.1.deep_view() == cur_dns_names(merged_ifaces@.kernel_ifaces, true),
{
    (cur_dns_ifaces_of(merged_ifaces, false), cur_dns_ifaces_of(merged_ifaces, true))
}

fn holders_valid(merged_ifaces: &MergedInterfaces, names: &[String], is_ipv6: bool) -> (r: bool)
    ensures
        r == holders_still_valid(merged_ifaces@, names.deep_view(), is_ipv6),
{
    let mut i: usize = 0;
    while i < names.len()
        invariant
            i <= names.len(),
            forall|j: int|
                0 <= j < i ==> match merged_ifaces@.get(#[trigger] names.deep_view()[j]) {
                    Some(m) => !(m.is_changed() && !m.valid_for_dns(is_ipv6)),
                    None => true,
                },
        decreases names.len() - i,
    {
        match merged_ifaces.find(names[i].as_str()) {
            Some(k) => {
                let iface = &merged_ifaces.kernel_ifaces[k];
                if iface.is_changed() && !iface.is_iface_valid_for_dns(is_ipv6) {
                    assert(merged_ifaces@.get(names.deep_view()[i as int]) == Some(iface@));
                    return false;
                }
            },
            None => {},
        }
        i += 1;
    }
    true
}

/// Whether the interfaces that hold DNS settings now can go on holding
/// them.
pub fn cur_dns_ifaces_still_valid_for_dns(merged_ifaces: &MergedInterfaces) -> (r: bool)
    ensures
        r == cur_holders_still_valid(merged_ifaces@),
{
    let (cur_v4_ifaces, cur_v6_ifaces) = get_cur_dns_ifaces(merged_ifaces);
    holders_valid(merged_ifaces, cur_v4_ifaces.as_slice(), false) && holders_valid(
        merged_ifaces,
        cur_v6_ifaces.as_slice(),
        true,
    )
}

impl MergedInterface {
    /// Whether the interface as it is applied is a first choice for the
    /// DNS settings of a family: its stack is static with addresses, or
    /// dynamic without taking DNS settings from the network.
    pub fn is_iface_prefered_for_dns(&self, is_ipv6: bool) -> (r: bool)
        ensures
            r == self@.preferred_for_dns(is_ipv6),
    {
        match &self.for_apply {
            Some(apply_iface) => if is_ipv6 {
                match &apply_iface.ipv6 {
                    Some(ip_conf) => ip_conf.enabled && (ip_conf.is_static() || (ip_conf.is_auto()
                        && match ip_conf.auto_dns {
                        Some(b) => !b,
                        None => false,
                    })),
                    None => false,
                }
            } else {
                match &apply_iface.ipv4 {
                    Some(ip_conf) => ip_conf.enabled && (ip_conf.is_static() || (ip_conf.is_auto()
                        && match ip_conf.auto_dns {
                        Some(b) => !b,
                        None => false,
                    })),
                    None => false,
                }
            },
            None => false,
        }
    }

    /// Whether the interface as it will be can hold the DNS settings of a
    /// family: its stack is on, and static or dynamic.
    pub fn is_iface_valid_for_dns(&self, is_ipv6: bool) -> (r: bool)
        ensures
            r == self@.valid_for_dns(is_ipv6),
    {
        if is_ipv6 {
            match &self.merged.ipv6 {
                Some(ip_conf) => ip_conf.enabled && (ip_conf.is_static() || ip_conf.is_auto()),
                None => false,
            }
        } else {
            match &self.merged.ipv4 {
                Some(ip_conf) => ip_conf.enabled && (ip_conf.is_static() || ip_conf.is_auto()),
                None => false,
            }
        }
    }
}

/// Whether an active connection shows that the interface was set up
/// outside the backend.
pub fn is_external_managed(iface_name: &str, nm_acs: &[NmActiveConnection]) -> (r: bool)
    ensures
        r == externally_managed(iface_name@, nm_acs@),
{
    let mut i: usize = 0;
    while i < nm_acs.len()
        invariant
            i <= nm_acs.len(),
            forall|j: int|
                0 <= j < i ==> !((#[trigger] nm_acs@[j]).iface_name@ == iface_name@
                    && is_kernel_iface_type(nm_acs@[j].iface_type@)
                    && nm_acs@[j].state_flags & 0x80 > 0),
        decreases nm_acs.len() - i,
    {
        let nm_ac = &nm_acs[i];
        if str_eq(nm_ac.iface_name.as_str(), iface_name) && is_supported_kernel_iface_type(
            nm_ac.iface_type.as_str(),
        ) && nm_ac.state_flags & NM_ACTIVATION_STATE_FLAG_EXTERNAL > 0 {
            return true;
        }
        i += 1;
    }
    false
}

/// Whether a device shows that the backend does not manage the
/// interface.
pub fn is_unmanaged(iface_name: &str, nm_devs: &[NmDevice]) -> (r: bool)
    ensures
        r == unmanaged(iface_name@, nm_devs@),
{
    let mut i: usize = 0;
    while i < nm_devs.len()
        invariant
            i <= nm_devs.len(),
            forall|j: int|
                0 <= j < i ==> !((#[trigger] nm_devs@[j]).name@ == iface_name@
                    && is_kernel_iface_type(nm_devs@[j].iface_type@)
                    && nm_devs@[j].state == NmDeviceState::Unmanaged),
        decreases nm_devs.len() - i,
    {
        let nm_dev = &nm_devs[i];
        if str_eq(nm_dev.name.as_str(), iface_name) && is_supported_kernel_iface_type(
            nm_dev.iface_type.as_str(),
        ) && nm_dev.state == NmDeviceState::Unmanaged {
            return true;
        }
        i += 1;
    }
    false
}

fn find_sticky(merged_ifaces: &MergedInterfaces, cur_dns_ifaces: &[String], is_ipv6: bool) -> (r:
    Option<String>)
    ensures
        opt_text(r) == sticky_holder(
            merged_ifaces@,
            cur_dns_ifaces.deep_view(),
            is_ipv6,
            0,
        ),
{
    let mut i: usize = 0;
    while i < cur_dns_ifaces.len()
        invariant
            i <= cur_dns_ifaces.len(),
            sticky_holder(merged_ifaces@, cur_dns_ifaces.deep_view(), is_ipv6, 0) == sticky_holder(
                merged_ifaces@,
                cur_dns_ifaces.deep_view(),
                is_ipv6,
                i as int,
            ),
        decreases cur_dns_ifaces.len() - i,
    {
        let iface_name = &cur_dns_ifaces[i];
        assert(cur_dns_ifaces.deep_view()[i as int] == iface_name@);
        match merged_ifaces.find(iface_name.as_str()) {
            Some(k) => {
                let iface = &merged_ifaces.kernel_ifaces[k];
                if iface.is_changed() && iface.is_iface_valid_for_dns(is_ipv6) {
                    return Some(iface_name.clone());
                }
            },
            None => {},
        }
        i += 1;
    }
    None
}

fn find_desired(merged_ifaces: &MergedInterfaces, is_ipv6: bool, preferred: bool) -> (r: Option<
    String,
>)
    ensures
        opt_text(r) == desired_holder(merged_ifaces@, is_ipv6, preferred, 0),
{
    let mut i: usize = 0;
    while i < merged_ifaces.insert_order.len()
        invariant
            i <= merged_ifaces.insert_order.len(),
            desired_holder(merged_ifaces@, is_ipv6, preferred, 0) == desired_holder(
                merged_ifaces@,
                is_ipv6,
                preferred,
                i as int,
            ),
        decreases merged_ifaces.insert_order.len() - i,
    {
        let entry = &merged_ifaces.insert_order[i];
        assert(merged_ifaces@.insert_order[i as int] == (entry.0@, entry.1));
        if !entry.1.is_userspace() && entry.1 != InterfaceType::Loopback {
            match merged_ifaces.find(entry.0.as_str()) {
                Some(k) => {
                    let iface = &merged_ifaces.kernel_ifaces[k];
                    if iface.is_changed() && (if preferred {
                        iface.is_iface_prefered_for_dns(is_ipv6)
                    } else {
                        iface.is_iface_valid_for_dns(is_ipv6)
                    }) {
                        return Some(entry.0.clone());
                    }
                },
                None => {},
            }
        }
        i += 1;
    }
    None
}

fn find_current(
    merged_ifaces: &MergedInterfaces,
    is_ipv6: bool,
    nm_acs: &[NmActiveConnection],
    nm_devs: &[NmDevice],
) -> (r: Option<String>)
    ensures
        opt_text(r) == current_holder(
            merged_ifaces@,
            is_ipv6,
            nm_acs@,
            nm_devs@,
            merged_ifaces@.kernel_ifaces.len() as int,
        ),
{
    let mut best: Option<String> = None;
    let mut i: usize = 0;
    while i < merged_ifaces.kernel_ifaces.len()
        invariant
            i <= merged_ifaces.kernel_ifaces.len(),
            opt_text(best) == current_holder(
                merged_ifaces@,
                is_ipv6,
                nm_acs@,
                nm_devs@,
                i as int,
            ),
        decreases merged_ifaces.kernel_ifaces.len() - i,
    {
        let m = &merged_ifaces.kernel_ifaces[i];
        assert(merged_ifaces@.kernel_ifaces[i as int] == m@);
        let name = m.merged.name();
        let candidate = !m.is_changed() && m.merged.iface_type() != InterfaceType::Loopback
            && match merged_ifaces.find(name) {
            Some(k) => merged_ifaces.kernel_ifaces[k].is_iface_valid_for_dns(is_ipv6),
            None => false,
        } && !is_external_managed(name, nm_acs) && !is_unmanaged(name, nm_devs);
        if candidate {
            let take = match &best {
                Some(b) => {
                    let x = to_chars(name);
                    let y = to_chars(b.as_str());
                    text_before(x.as_slice(), y.as_slice())
                },
                None => true,
            };
            if take {
                best = Some(m.merged.name.clone());
            }
        }
        i += 1;
    }
    best
}

/// Finds the interface that holds the DNS settings of a family.
pub fn find_dns_iface(
    is_ipv6: bool,
    merged_ifaces: &MergedInterfaces,
    cur_dns_ifaces: &[String],
    nm_acs: &[NmActiveConnection],
    nm_devs: &[NmDevice],
) -> (r: Option<String>)
    ensures
        opt_text(r) == dns_holder(
            merged_ifaces@,
            cur_dns_ifaces.deep_view(),
            is_ipv6,
            nm_acs@,
            nm_devs@,
        ),
{
    match find_sticky(merged_ifaces, cur_dns_ifaces, is_ipv6) {
        Some(n) => {
            return Some(n);
        },
        None => {},
    }
    match find_desired(merged_ifaces, is_ipv6, true) {
        Some(n) => {
            return Some(n);
        },
        None => {},
    }
    match find_desired(merged_ifaces, is_ipv6, false) {
        Some(n) => {
            return Some(n);
        },
        None => {},
    }
    find_current(merged_ifaces, is_ipv6, nm_acs, nm_devs)
}

/// The interface that the first name server with an interface behind a
/// `%` names.
pub fn extract_ipv6_link_local_iface_from_dns_srv(srvs: &[String]) -> (r: Option<String>)
    ensures
        opt_text(r) == link_local_iface(srvs.deep_view(), 0),
{
    let mut i: usize = 0;
    while i < srvs.len()
        invariant
            i <= srvs.len(),
            link_local_iface(srvs.deep_view(), 0) == link_local_iface(srvs.deep_view(), i as int),
        decreases srvs.len() - i,
    {
        let srv = &srvs[i];
        assert(srvs.deep_view()[i as int] == srv@);
        let chars = to_chars(srv.as_str());
        let splits = split_ranges(chars.as_slice(), '%');
        if splits.len() == 2 && splits[1].0 < splits[1].1 {
            return Some(srv.as_str().substring_char(splits[1].0, splits[1].1).to_owned());
        }
        i += 1;
    }
    None
}

fn unwrap_or_empty(o: Option<String>) -> (r: String)
    ensures
        r@ == name_or_empty(opt_text(o)),
{
    match o {
        Some(s) => s,
        None => String::new(),
    }
}

/// Chooses the interfaces that hold the DNS settings of IPv4 and of
/// IPv6; the empty name stands for none.
pub fn reselect_dns_ifaces(
    merged_state: &MergedNetworkState,
    cur_v4_ifaces: &[String],
    cur_v6_ifaces: &[String],
    nm_acs: &[NmActiveConnection],
    nm_devs: &[NmDevice],
) -> (r: (String, String))
    ensures
        (r.0@, r.1@) == reselected(
            merged_state@,
            cur_v4_ifaces.deep_view(),
            cur_v6_ifaces.deep_view(),
            nm_acs@,
            nm_devs@,
        ),
{
    let ipv4_iface = unwrap_or_empty(
        find_dns_iface(false, &merged_state.interfaces, cur_v4_ifaces, nm_acs, nm_devs),
    );
    let ipv6_iface = match extract_ipv6_link_local_iface_from_dns_srv(merged_state.dns.servers.as_slice()) {
        Some(n) => n,
        None => unwrap_or_empty(
            find_dns_iface(true, &merged_state.interfaces, cur_v6_ifaces, nm_acs, nm_devs),
        ),
    };
    (ipv4_iface, ipv6_iface)
}

} // verus!
