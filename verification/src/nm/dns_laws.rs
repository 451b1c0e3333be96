use crate::dns_state::DnsClientStateView;
use crate::ifaces::inter_ifaces::{index_of_iface, lemma_index_of_iface, MergedInterfacesView};
use crate::ifaces::merged::MergedInterfaceView;
use crate::nm::dns_model::{
    cur_dns_names, cur_holders_still_valid, current_candidate, current_holder, family_runs,
    holder_conf, is_ipv6_text, is_mixed, lesser_name, prefers_ipv6, purged, reselected, saved,
    saved_one, servers_of, stored, stored_servers, with_ifaces, MergedNetworkStateView,
};
use crate::nm::dns_search::lemma_search_target_found;
use crate::nm::nm_dbus::{NmActiveConnection, NmDevice};
use crate::nm::search_model::{search_stored, search_target, sticky_search_target};
use crate::text::{
    lemma_text_lt_irreflexive, lemma_text_lt_total, lemma_text_lt_transitive, text_lt,
};
use vstd::prelude::*;

verus! {

/// A list has at most as many runs of one family as it has name servers.
pub proof fn lemma_family_runs_bound(srvs: Seq<Seq<char>>)
    ensures
        family_runs(srvs) <= srvs.len(),
    decreases srvs.len(),
{
    if srvs.len() > 1 {
        lemma_family_runs_bound(srvs.drop_last());
    }
}

/// Whether the name servers at the positions `i < j < k` are of one
/// family, then of the other, then of the first again.
pub open spec fn alternates(srvs: Seq<Seq<char>>, i: int, j: int, k: int) -> bool {
    0 <= i < j < k < srvs.len() && is_ipv6_text(srvs[i]) != is_ipv6_text(srvs[j]) && is_ipv6_text(
        srvs[j],
    ) != is_ipv6_text(srvs[k])
}

/// One more name server adds a run where its family differs from that
/// of the one before.
proof fn lemma_runs_step(srvs: Seq<Seq<char>>, n: int)
    requires
        1 <= n <= srvs.len(),
    ensures
        family_runs(srvs.take(n)) == if n == 1 {
            1
        } else {
            family_runs(srvs.take(n - 1)) + if is_ipv6_text(srvs[n - 1]) != is_ipv6_text(
                srvs[n - 2],
            ) {
                1nat
            } else {
                0nat
            }
        },
        n >= 2 ==> family_runs(srvs.take(n - 1)) >= 1,
{
    let t = srvs.take(n);
    assert(t.drop_last() =~= srvs.take(n - 1));
    assert(t.last() == srvs[n - 1]);
    if n >= 2 {
        assert(t[t.len() - 2] == srvs[n - 2]);
        lemma_runs_positive(srvs.take(n - 1));
    }
}

proof fn lemma_runs_positive(srvs: Seq<Seq<char>>)
    requires
        srvs.len() >= 1,
    ensures
        family_runs(srvs) >= 1,
    decreases srvs.len(),
{
    if srvs.len() > 1 {
        lemma_runs_positive(srvs.drop_last());
    }
}

proof fn lemma_two_families_two_runs(srvs: Seq<Seq<char>>, n: int, i: int, j: int)
    requires
        0 <= i < j < n <= srvs.len(),
        is_ipv6_text(srvs[i]) != is_ipv6_text(srvs[j]),
    ensures
        family_runs(srvs.take(n)) >= 2,
    decreases n,
{
    lemma_runs_step(srvs, n);
    if j == n - 1 {
        if is_ipv6_text(srvs[n - 1]) == is_ipv6_text(srvs[n - 2]) {
            lemma_two_families_two_runs(srvs, n - 1, i, n - 2);
        }
    } else {
        lemma_two_families_two_runs(srvs, n - 1, i, j);
    }
}

proof fn lemma_alternation_three_runs(srvs: Seq<Seq<char>>, n: int, i: int, j: int, k: int)
    requires
        alternates(srvs, i, j, k),
        k < n <= srvs.len(),
    ensures
        family_runs(srvs.take(n)) >= 3,
    decreases n,
{
    lemma_runs_step(srvs, n);
    if k == n - 1 {
        if is_ipv6_text(srvs[n - 1]) == is_ipv6_text(srvs[n - 2]) {
            lemma_alternation_three_runs(srvs, n - 1, i, j, n - 2);
        } else {
            lemma_two_families_two_runs(srvs, n - 1, i, j);
        }
    } else {
        lemma_alternation_three_runs(srvs, n - 1, i, j, k);
    }
}

proof fn lemma_two_runs_other_family(srvs: Seq<Seq<char>>, m: int) -> (i: int)
    requires
        1 <= m <= srvs.len(),
        family_runs(srvs.take(m)) >= 2,
    ensures
        0 <= i < m - 1,
        is_ipv6_text(srvs[i]) != is_ipv6_text(srvs[m - 1]),
    decreases m,
{
    lemma_runs_step(srvs, m);
    if is_ipv6_text(srvs[m - 1]) != is_ipv6_text(srvs[m - 2]) {
        m - 2
    } else {
        lemma_two_runs_other_family(srvs, m - 1)
    }
}

proof fn lemma_three_runs_alternation(srvs: Seq<Seq<char>>, n: int) -> (r: (int, int, int))
    requires
        1 <= n <= srvs.len(),
        family_runs(srvs.take(n)) >= 3,
    ensures
        alternates(srvs, r.0, r.1, r.2),
    decreases n,
{
    lemma_runs_step(srvs, n);
    if family_runs(srvs.take(n - 1)) >= 3 {
        lemma_three_runs_alternation(srvs, n - 1)
    } else {
        let i = lemma_two_runs_other_family(srvs, n - 1);
        (i, n - 2, n - 1)
    }
}

/// The ordering rule for name servers: a list is refused exactly where
/// some name server stands between two of the other family, that is,
/// where the pattern of its families holds `4-6-4` or `6-4-6`.
pub proof fn law_mixed_servers(srvs: Seq<Seq<char>>)
    ensures
        is_mixed(srvs) <==> exists|i: int, j: int, k: int| alternates(srvs, i, j, k),
{
    assert(srvs.take(srvs.len() as int) =~= srvs);
    if is_mixed(srvs) {
        lemma_family_runs_bound(srvs);
        let r = lemma_three_runs_alternation(srvs, srvs.len() as int);
        assert(alternates(srvs, r.0, r.1, r.2));
    }
    if exists|i: int, j: int, k: int| alternates(srvs, i, j, k) {
        let (i, j, k) = choose|i: int, j: int, k: int| alternates(srvs, i, j, k);
        lemma_alternation_three_runs(srvs, srvs.len() as int, i, j, k);
    }
}

/// Among the interfaces that are left as they run, the holder is one
/// that is fit to hold the DNS settings, and none that is fit has a name
/// that comes before its name. So the choice does not depend on the
/// order in which the interfaces are kept.
pub proof fn law_current_holder_least(
    ifaces: MergedInterfacesView,
    is_ipv6: bool,
    acs: Seq<NmActiveConnection>,
    devs: Seq<NmDevice>,
    upto: int,
)
    requires
        0 <= upto <= ifaces.kernel_ifaces.len(),
    ensures
        current_holder(ifaces, is_ipv6, acs, devs, upto) is Some ==> exists|i: int|
            0 <= i < upto && #[trigger] current_candidate(ifaces, is_ipv6, acs, devs, i)
                && ifaces.kernel_ifaces[i].merged.name == current_holder(
                ifaces,
                is_ipv6,
                acs,
                devs,
                upto,
            )->0,
        forall|i: int|
            0 <= i < upto && #[trigger] current_candidate(ifaces, is_ipv6, acs, devs, i)
                ==> current_holder(ifaces, is_ipv6, acs, devs, upto) is Some && !text_lt(
                ifaces.kernel_ifaces[i].merged.name,
                current_holder(ifaces, is_ipv6, acs, devs, upto)->0,
            ) && (ifaces.kernel_ifaces[i].merged.name == current_holder(
                ifaces,
                is_ipv6,
                acs,
                devs,
                upto,
            )->0 || text_lt(
                current_holder(ifaces, is_ipv6, acs, devs, upto)->0,
                ifaces.kernel_ifaces[i].merged.name,
            )),
    decreases upto,
{
    assert forall|a: Seq<char>, b: Seq<char>| a == b || #[trigger] text_lt(a, b) || text_lt(b, a) by {
        lemma_text_lt_total(a, b);
    }
    if upto > 0 {
        law_current_holder_least(ifaces, is_ipv6, acs, devs, upto - 1);
        let rest = current_holder(ifaces, is_ipv6, acs, devs, upto - 1);
        let here = current_holder(ifaces, is_ipv6, acs, devs, upto);
        let name = ifaces.kernel_ifaces[upto - 1].merged.name;
        if current_candidate(ifaces, is_ipv6, acs, devs, upto - 1) {
            lemma_text_lt_irreflexive(name);
            assert(here == Some(lesser_name(name, rest)));
            assert forall|i: int|
                0 <= i < upto && #[trigger] current_candidate(
                    ifaces,
                    is_ipv6,
                    acs,
                    devs,
                    i,
                ) implies !text_lt(ifaces.kernel_ifaces[i].merged.name, here->0) by {
                if i < upto - 1 {
                    let c = ifaces.kernel_ifaces[i].merged.name;
                    if text_lt(c, here->0) && here->0 == name {
                        lemma_text_lt_transitive(c, name, rest->0);
                    }
                }
            }
            if rest is Some && here->0 == rest->0 {
                let w = choose|i: int|
                    0 <= i < upto - 1 && #[trigger] current_candidate(
                        ifaces,
                        is_ipv6,
                        acs,
                        devs,
                        i,
                    ) && ifaces.kernel_ifaces[i].merged.name == rest->0;
                assert(current_candidate(ifaces, is_ipv6, acs, devs, w));
            } else {
                assert(current_candidate(ifaces, is_ipv6, acs, devs, upto - 1));
            }
        } else {
            if rest is Some {
                let w = choose|i: int|
                    0 <= i < upto - 1 && #[trigger] current_candidate(
                        ifaces,
                        is_ipv6,
                        acs,
                        devs,
                        i,
                    ) && ifaces.kernel_ifaces[i].merged.name == rest->0;
                assert(current_candidate(ifaces, is_ipv6, acs, devs, w));
            }
        }
    }
}

/// Whether two views of an interface differ at most in what is applied
/// and what is verified.
pub open spec fn same_but_applied(a: MergedInterfaceView, b: MergedInterfaceView) -> bool {
    a.desired == b.desired && a.current == b.current && a.merged == b.merged
}

/// Whether two lists hold the same interfaces but for what is applied
/// and what is verified.
pub open spec fn same_interfaces(a: Seq<MergedInterfaceView>, b: Seq<MergedInterfaceView>) -> bool {
    a.len() == b.len() && forall|i: int| 0 <= i < a.len() ==> same_but_applied(#[trigger] a[i], b[i])
}

/// Whether a change of the state is confined to what is applied and what
/// is verified of its interfaces.
pub open spec fn confined(before: MergedNetworkStateView, after: MergedNetworkStateView) -> bool {
    after.dns == before.dns && after.interfaces.insert_order == before.interfaces.insert_order
        && same_interfaces(before.interfaces.kernel_ifaces, after.interfaces.kernel_ifaces)
}

/// A change that is confined keeps the names of the interfaces, so that
/// still no two interfaces have one name.
pub proof fn law_confined_keeps_names(before: MergedNetworkStateView, after: MergedNetworkStateView)
    requires
        confined(before, after),
        before.interfaces.wf(),
    ensures
        after.interfaces.wf(),
        after.interfaces.names() == before.interfaces.names(),
{
    let a = before.interfaces.kernel_ifaces;
    let b = after.interfaces.kernel_ifaces;
    assert forall|i: int| 0 <= i < a.len() implies (#[trigger] b[i]).merged.name
        == a[i].merged.name by {
        assert(same_but_applied(a[i], b[i]));
    }
    assert(after.interfaces.names() =~= before.interfaces.names());
}

proof fn lemma_purged_confined(
    ifaces: Seq<MergedInterfaceView>,
    names: Seq<Seq<char>>,
    is_ipv6: bool,
    upto: int,
)
    ensures
        same_interfaces(ifaces, purged(ifaces, names, is_ipv6, upto)),
    decreases upto,
{
    if 0 < upto <= names.len() {
        lemma_purged_confined(ifaces, names, is_ipv6, upto - 1);
        let prev = purged(ifaces, names, is_ipv6, upto - 1);
        lemma_index_of_iface(prev, names[upto - 1], 0);
    }
}

proof fn lemma_saved_one_confined(
    state: MergedNetworkStateView,
    is_ipv6: bool,
    iface_name: Seq<char>,
    servers: Seq<Seq<char>>,
    preferred: bool,
)
    ensures
        confined(state, saved_one(state, is_ipv6, iface_name, servers, preferred).0),
{
    lemma_index_of_iface(state.interfaces.kernel_ifaces, iface_name, 0);
}

proof fn lemma_confined_transitive(
    a: MergedNetworkStateView,
    b: MergedNetworkStateView,
    c: MergedNetworkStateView,
)
    requires
        confined(a, b),
        confined(b, c),
    ensures
        confined(a, c),
{
    assert forall|i: int| 0 <= i < a.interfaces.kernel_ifaces.len() implies same_but_applied(
        #[trigger] a.interfaces.kernel_ifaces[i],
        c.interfaces.kernel_ifaces[i],
    ) by {
        assert(same_but_applied(a.interfaces.kernel_ifaces[i], b.interfaces.kernel_ifaces[i]));
        assert(same_but_applied(b.interfaces.kernel_ifaces[i], c.interfaces.kernel_ifaces[i]));
    }
}

proof fn lemma_saved_confined(state: MergedNetworkStateView, v4_name: Seq<char>, v6_name: Seq<char>)
    ensures
        confined(state, saved(state, v4_name, v6_name).0),
{
    let v6 = servers_of(state.dns.servers, true);
    let v4 = servers_of(state.dns.servers, false);
    let pref6 = prefers_ipv6(state.dns.servers);
    let first = if v6.len() > 0 {
        saved_one(state, true, v6_name, v6, pref6)
    } else {
        (state, None)
    };
    if v6.len() > 0 {
        lemma_saved_one_confined(state, true, v6_name, v6, pref6);
    }
    if first.1 is None && v4.len() > 0 {
        lemma_saved_one_confined(first.0, false, v4_name, v4, !pref6);
        lemma_confined_transitive(state, first.0, saved(state, v4_name, v6_name).0);
    }
}

/// Placing the name servers changes nothing but what is applied and what
/// is verified of the interfaces, whether it succeeds or fails: the
/// global DNS configuration, the order of insertion, and the desired,
/// the running and the merged view of every interface stay as they are.
pub proof fn law_store_is_confined(
    state: MergedNetworkStateView,
    acs: Seq<NmActiveConnection>,
    devs: Seq<NmDevice>,
)
    ensures
        confined(state, stored(state, acs, devs).0),
{
    if (state.dns.changed || !cur_holders_still_valid(state.interfaces)) && !is_mixed(
        state.dns.servers,
    ) {
        let cur4 = cur_dns_names(state.interfaces.kernel_ifaces, false);
        let cur6 = cur_dns_names(state.interfaces.kernel_ifaces, true);
        let names = reselected(state, cur4, cur6, acs, devs);
        let cleared4 = purged(state.interfaces.kernel_ifaces, cur4, false, cur4.len() as int);
        let cleared6 = purged(cleared4, cur6, true, cur6.len() as int);
        lemma_purged_confined(state.interfaces.kernel_ifaces, cur4, false, cur4.len() as int);
        lemma_purged_confined(cleared4, cur6, true, cur6.len() as int);
        let mid = with_ifaces(state, cleared6);
        assert(confined(state, mid)) by {
            assert forall|i: int|
                0 <= i < state.interfaces.kernel_ifaces.len() implies same_but_applied(
                #[trigger] state.interfaces.kernel_ifaces[i],
                cleared6[i],
            ) by {
                assert(same_but_applied(state.interfaces.kernel_ifaces[i], cleared4[i]));
                assert(same_but_applied(cleared4[i], cleared6[i]));
            }
        }
        lemma_saved_confined(mid, names.0, names.1);
        lemma_confined_transitive(state, mid, stored(state, acs, devs).0);
    }
}

/// Placing search domains and options changes nothing but what is
/// applied and what is verified of the interfaces, and nothing at all
/// where it fails.
pub proof fn law_search_store_is_confined(
    state: MergedNetworkStateView,
    acs: Seq<NmActiveConnection>,
    devs: Seq<NmDevice>,
)
    ensures
        confined(state, search_stored(state, acs, devs).0),
        search_stored(state, acs, devs).1 is Some ==> search_stored(state, acs, devs).0 == state,
{
    let cur6 = cur_dns_names(state.interfaces.kernel_ifaces, true);
    let cur4 = cur_dns_names(state.interfaces.kernel_ifaces, false);
    let s6 = sticky_search_target(state.interfaces, cur6, true, 0);
    let s4 = sticky_search_target(state.interfaces, cur4, false, 0);
    if s6 is Some {
        lemma_sticky_search_target_found(state.interfaces, cur6, true, 0);
    } else if s4 is Some {
        lemma_sticky_search_target_found(state.interfaces, cur4, false, 0);
    } else {
        lemma_search_target_found(state.interfaces, true, acs, devs);
        lemma_search_target_found(state.interfaces, false, acs, devs);
        let t1 = search_target(state.interfaces, true, acs, devs);
        if t1 is Some {
            lemma_index_of_iface(state.interfaces.kernel_ifaces, t1->0, 0);
        }
        let t2 = search_target(state.interfaces, false, acs, devs);
        if t2 is Some {
            lemma_index_of_iface(state.interfaces.kernel_ifaces, t2->0, 0);
        }
    }
}

proof fn lemma_sticky_search_target_found(
    ifaces: MergedInterfacesView,
    cur: Seq<Seq<char>>,
    is_ipv6: bool,
    from: int,
)
    requires
        0 <= from,
    ensures
        sticky_search_target(ifaces, cur, is_ipv6, from) is Some ==> {
            let n = sticky_search_target(ifaces, cur, is_ipv6, from)->0;
            let i = index_of_iface(ifaces.kernel_ifaces, n, 0);
            0 <= i < ifaces.kernel_ifaces.len() && ifaces.kernel_ifaces[i].for_apply is Some
        },
    decreases cur.len() - from,
{
    if from < cur.len() {
        lemma_index_of_iface(ifaces.kernel_ifaces, cur[from], 0);
        lemma_sticky_search_target_found(ifaces, cur, is_ipv6, from + 1);
    }
}

/// Lists that hold interfaces of the same names find a name at the same
/// position.
proof fn lemma_index_same_names(
    a: Seq<MergedInterfaceView>,
    b: Seq<MergedInterfaceView>,
    name: Seq<char>,
    from: int,
)
    requires
        0 <= from,
        a.len() == b.len(),
        forall|i: int| 0 <= i < a.len() ==> (#[trigger] a[i]).merged.name == b[i].merged.name,
    ensures
        index_of_iface(a, name, from) == index_of_iface(b, name, from),
    decreases a.len() - from,
{
    if from < a.len() {
        assert(a[from].merged.name == b[from].merged.name);
        lemma_index_same_names(a, b, name, from + 1);
    }
}

/// The name servers of the two families are together as many as all,
/// and each list holds name servers of its family only.
pub proof fn lemma_servers_of(srvs: Seq<Seq<char>>)
    ensures
        servers_of(srvs, true).len() + servers_of(srvs, false).len() == srvs.len(),
        forall|i: int|
            0 <= i < servers_of(srvs, true).len() ==> is_ipv6_text(
                #[trigger] servers_of(srvs, true)[i],
            ),
        forall|i: int|
            0 <= i < servers_of(srvs, false).len() ==> !is_ipv6_text(
                #[trigger] servers_of(srvs, false)[i],
            ),
        srvs.len() > 0 && is_ipv6_text(srvs[0]) ==> servers_of(srvs, true).len() > 0,
        srvs.len() > 0 && !is_ipv6_text(srvs[0]) ==> servers_of(srvs, false).len() > 0,
    decreases srvs.len(),
{
    if srvs.len() > 0 {
        lemma_servers_of(srvs.drop_last());
        if srvs.len() > 1 {
            assert(srvs.drop_last()[0] == srvs[0]);
        }
    }
}

/// Whether the interface named `name` can take the name servers of a
/// family: it is among the interfaces, and what is applied of it has the
/// stack of the family.
pub open spec fn holder_ready(ifaces: Seq<MergedInterfaceView>, name: Seq<char>, is_ipv6: bool)
    -> bool {
    let i = index_of_iface(ifaces, name, 0);
    name.len() > 0 && 0 <= i < ifaces.len() && ifaces[i].for_apply is Some
        && ifaces[i].for_apply->0.stack(is_ipv6) is Some
}

/// The DNS settings of a family on what is applied of the interface
/// named `name`.
pub open spec fn applied_dns(ifaces: Seq<MergedInterfaceView>, name: Seq<char>, is_ipv6: bool)
    -> Option<DnsClientStateView>
    recommends
        holder_ready(ifaces, name, is_ipv6),
{
    ifaces[index_of_iface(ifaces, name, 0)].for_apply->0.stack(is_ipv6)->0.dns
}

/// Whether nothing is written to the stacks of a family between two
/// states.
pub open spec fn family_untouched(
    before: Seq<MergedInterfaceView>,
    after: Seq<MergedInterfaceView>,
    is_ipv6: bool,
) -> bool {
    before.len() == after.len() && forall|i: int|
        0 <= i < before.len() && (#[trigger] before[i]).for_apply is Some ==> after[i].for_apply
            is Some && after[i].for_apply->0.stack(is_ipv6) == before[i].for_apply->0.stack(is_ipv6)
}

#[verifier::rlimit(50)]
proof fn lemma_saved_one_writes(
    state: MergedNetworkStateView,
    is_ipv6: bool,
    iface_name: Seq<char>,
    servers: Seq<Seq<char>>,
    preferred: bool,
)
    requires
        holder_ready(state.interfaces.kernel_ifaces, iface_name, is_ipv6),
        stored_servers(servers) is Some,
    ensures
        ({
            let placed = saved_one(state, is_ipv6, iface_name, servers, preferred);
            let after = placed.0.interfaces.kernel_ifaces;
            &&& placed.1 is None
            &&& confined(state, placed.0)
            &&& holder_ready(after, iface_name, is_ipv6)
            &&& applied_dns(after, iface_name, is_ipv6) == Some(
                holder_conf(state.dns, stored_servers(servers)->0, preferred),
            )
            &&& family_untouched(state.interfaces.kernel_ifaces, after, !is_ipv6)
            &&& forall|n: Seq<char>, f: bool|
                #![trigger holder_ready(after, n, f)]
                holder_ready(state.interfaces.kernel_ifaces, n, f) ==> holder_ready(after, n, f)
        }),
{
    let before = state.interfaces.kernel_ifaces;
    let placed = saved_one(state, is_ipv6, iface_name, servers, preferred);
    let after = placed.0.interfaces.kernel_ifaces;
    lemma_index_of_iface(before, iface_name, 0);
    lemma_saved_one_confined(state, is_ipv6, iface_name, servers, preferred);
    assert forall|i: int| 0 <= i < before.len() implies (#[trigger] before[i]).merged.name
        == after[i].merged.name by {
        assert(same_but_applied(before[i], after[i]));
    }
    lemma_index_same_names(before, after, iface_name, 0);
    assert forall|n: Seq<char>, f: bool| holder_ready(before, n, f) implies #[trigger] holder_ready(
        after,
        n,
        f,
    ) by {
        lemma_index_same_names(before, after, n, 0);
    }
}

/// The split of the name servers: where each family that has a name
/// server has a holder that can take it, and every name server can be
/// stored, placing succeeds. The holder of IPv6 then has the name
/// servers with a colon, the holder of IPv4 the others, each in their
/// order and without interfaces behind `%`. The holder of the family of
/// the first name server has priority 40 with all search domains and
/// options, the other priority 50 with none. A family without name
/// server gets nothing written.
#[verifier::rlimit(50)]
pub proof fn law_dns_split(state: MergedNetworkStateView, v4_name: Seq<char>, v6_name: Seq<char>)
    requires
        servers_of(state.dns.servers, true).len() > 0 ==> holder_ready(
            state.interfaces.kernel_ifaces,
            v6_name,
            true,
        ) && stored_servers(servers_of(state.dns.servers, true)) is Some,
        servers_of(state.dns.servers, false).len() > 0 ==> holder_ready(
            state.interfaces.kernel_ifaces,
            v4_name,
            false,
        ) && stored_servers(servers_of(state.dns.servers, false)) is Some,
    ensures
        ({
            let v6 = servers_of(state.dns.servers, true);
            let v4 = servers_of(state.dns.servers, false);
            let pref6 = prefers_ipv6(state.dns.servers);
            let placed = saved(state, v4_name, v6_name);
            let after = placed.0.interfaces.kernel_ifaces;
            &&& placed.1 is None
            &&& v6.len() + v4.len() == state.dns.servers.len()
            &&& v6.len() > 0 ==> applied_dns(after, v6_name, true) == Some(
                DnsClientStateView {
                    server: stored_servers(v6),
                    search: Some(
                        if pref6 {
                            state.dns.searches
                        } else {
                            seq![]
                        },
                    ),
                    options: Some(
                        if pref6 {
                            state.dns.options
                        } else {
                            seq![]
                        },
                    ),
                    priority: Some(
                        if pref6 {
                            40i32
                        } else {
                            50i32
                        },
                    ),
                },
            )
            &&& v4.len() > 0 ==> applied_dns(after, v4_name, false) == Some(
                DnsClientStateView {
                    server: stored_servers(v4),
                    search: Some(
                        if pref6 {
                            seq![]
                        } else {
                            state.dns.searches
                        },
                    ),
                    options: Some(
                        if pref6 {
                            seq![]
                        } else {
                            state.dns.options
                        },
                    ),
                    priority: Some(
                        if pref6 {
                            50i32
                        } else {
                            40i32
                        },
                    ),
                },
            )
            &&& v6.len() == 0 ==> family_untouched(state.interfaces.kernel_ifaces, after, true)
            &&& v4.len() == 0 ==> family_untouched(state.interfaces.kernel_ifaces, after, false)
        }),
{
    let v6 = servers_of(state.dns.servers, true);
    let v4 = servers_of(state.dns.servers, false);
    let pref6 = prefers_ipv6(state.dns.servers);
    lemma_servers_of(state.dns.servers);
    let before = state.interfaces.kernel_ifaces;
    let first = if v6.len() > 0 {
        saved_one(state, true, v6_name, v6, pref6)
    } else {
        (state, None)
    };
    if v6.len() > 0 {
        lemma_saved_one_writes(state, true, v6_name, v6, pref6);
        assert(holder_ready(before, v4_name, false) ==> holder_ready(
            first.0.interfaces.kernel_ifaces,
            v4_name,
            false,
        ));
    }
    if v4.len() > 0 {
        lemma_saved_one_writes(first.0, false, v4_name, v4, !pref6);
        let mid = first.0.interfaces.kernel_ifaces;
        let after = saved(state, v4_name, v6_name).0.interfaces.kernel_ifaces;
        if v6.len() > 0 {
            let i = index_of_iface(mid, v6_name, 0);
            lemma_index_of_iface(mid, v6_name, 0);
            assert forall|k: int| 0 <= k < mid.len() implies (#[trigger] mid[k]).merged.name
                == after[k].merged.name by {
                assert(same_but_applied(mid[k], after[k]));
            }
            lemma_index_same_names(mid, after, v6_name, 0);
            assert(mid[i].for_apply is Some);
        } else {
            assert(family_untouched(before, after, true));
        }
    }
}

} // verus!
