use crate::addr::{ip_text_value, ipv6_text_value, parse_ip, parse_ipv6};
use crate::addr_fmt::{ip_text, ipv6_text, push_ipv6};
use crate::dns_state::{DnsClientState, DnsClientStateView};
use crate::error::{ErrorKind, NmstateError};
use crate::nm::dns_model::{is_ipv6_text, MergedDnsStateView};
use crate::text::{clone_texts, contains_char, opt_texts, split_ranges, split_seq, str_eq, to_chars};
use vstd::prelude::*;
use vstd::slice::slice_subrange;
use vstd::string::{StrSliceExecFns, StringExecFns};

verus! {

/// Whether the text of an address is taken as IPv6: it holds a colon.
pub fn is_ipv6_addr(addr: &str) -> (r: bool)
    ensures
        r == is_ipv6_text(addr@),
{
    let chars = to_chars(addr);
    contains_char(chars.as_slice(), ':')
}

/// The address and the interface that a name server of the form
/// `address%interface` names, where `s` has that form.
pub open spec fn link_local_server(s: Seq<char>) -> Option<Option<(nat, Seq<char>)>> {
    let p = split_seq(s, '%');
    if p.len() == 2 {
        match ipv6_text_value(p[0]) {
            Some(v) => Some(Some((v, p[1]))),
            None => None,
        }
    } else {
        Some(None)
    }
}

/// Reads a name server that names its interface behind a `%`: the IPv6
/// address and the interface. A name server with no `%`, or with more
/// than one, is none of these; one whose address is no IPv6 address is
/// refused.
pub fn parse_dns_ipv6_link_local_srv(srv: &str) -> (r: Result<Option<(u128, String)>, NmstateError>)
    ensures
        match link_local_server(srv@) {
            Some(Some(e)) => r is Ok && r->Ok_0 is Some && ({
                let got = r->Ok_0->0;
                got.0 == e.0 && got.1@ == e.1
            }),
            Some(None) => r is Ok && r->Ok_0 is None,
            None => r is Err && r->Err_0.kind() == ErrorKind::InvalidArgument,
        },
{
    let chars = to_chars(srv);
    let ranges = split_ranges(chars.as_slice(), '%');
    if ranges.len() == 2 {
        let text = slice_subrange(chars.as_slice(), ranges[0].0, ranges[0].1);
        match parse_ipv6(text) {
            Some(v) => {
                let iface = srv.substring_char(ranges[1].0, ranges[1].1).to_owned();
                Ok(Some((v, iface)))
            },
            None => Err(
                NmstateError::with_text(
                    ErrorKind::InvalidArgument,
                    "Invalid IPv6 address in DNS name server, only IPv6 link local address is \
                     allowed to have '%' character, the correct format should be \
                     'fe80::deef:1%eth1'",
                ),
            ),
        }
    } else {
        Ok(None)
    }
}

/// The text of a name server as it is compared: an IP address in its
/// canonical text; an address with an interface behind `%`, the address
/// in its canonical text; any other text as it is.
pub open spec fn canonical_server(s: Seq<char>) -> Seq<char> {
    match ip_text_value(s) {
        Some(ip) => ip_text(ip),
        None => match link_local_server(s) {
            Some(Some(e)) => ipv6_text(e.0) + seq!['%'] + e.1,
            _ => s,
        },
    }
}

/// The texts of a list of name servers as they are compared.
pub open spec fn canonical_servers(srvs: Seq<Seq<char>>) -> Seq<Seq<char>> {
    srvs.map_values(|s: Seq<char>| canonical_server(s))
}

/// Two texts that write the same IP address are the same name server.
pub proof fn law_same_address_same_server(a: Seq<char>, b: Seq<char>)
    requires
        ip_text_value(a) is Some,
        ip_text_value(a) == ip_text_value(b),
    ensures
        canonical_server(a) == canonical_server(b),
{
}

/// The text of a name server as it is compared.
pub fn canonical_dns_server(srv: &str) -> (r: String)
    ensures
        r@ == canonical_server(srv@),
{
    let chars = to_chars(srv);
    match parse_ip(chars.as_slice()) {
        Some(ip) => ip.to_string(),
        None => match parse_dns_ipv6_link_local_srv(srv) {
            Ok(Some((v, iface))) => {
                proof {
                    reveal_strlit("%");
                    assert("%"@ =~= seq!['%']);
                }
                let mut out = String::new();
                push_ipv6(&mut out, v);
                out.append("%");
                out.append(iface.as_str());
                assert(out@ =~= ipv6_text(v as nat) + seq!['%'] + iface@);
                out
            },
            _ => srv.to_owned(),
        },
    }
}

fn canonical_dns_servers(srvs: &Vec<String>) -> (r: Vec<String>)
    ensures
        r.deep_view() == canonical_servers(srvs.deep_view()),
{
    let mut r: Vec<String> = Vec::new();
    let mut i: usize = 0;
    while i < srvs.len()
        invariant
            i <= srvs.len(),
            r@.len() == i,
            forall|j: int| 0 <= j < i ==> r@[j]@ == canonical_server(srvs@[j]@),
        decreases srvs.len() - i,
    {
        r.push(canonical_dns_server(srvs[i].as_str()));
        i += 1;
    }
    assert(r.deep_view() =~= canonical_servers(srvs.deep_view()));
    r
}

/// Whether two lists of strings hold the same texts.
pub fn texts_eq(a: &Vec<String>, b: &Vec<String>) -> (r: bool)
    ensures
        r == (a.deep_view() == b.deep_view()),
{
    if a.len() != b.len() {
        assert(a.deep_view().len() != b.deep_view().len());
        return false;
    }
    let mut i: usize = 0;
    while i < a.len()
        invariant
            i <= a.len(),
            a.len() == b.len(),
            forall|j: int| 0 <= j < i ==> a@[j]@ == b@[j]@,
        decreases a.len() - i,
    {
        if !str_eq(a[i].as_str(), b[i].as_str()) {
            assert(a.deep_view()[i as int] != b.deep_view()[i as int]);
            return false;
        }
        i += 1;
    }
    assert(a.deep_view() =~= b.deep_view());
    true
}

/// What the DNS state of the machine holds.
pub struct DnsStateView {
    pub running: Option<DnsClientStateView>,
    pub config: Option<DnsClientStateView>,
}

/// The list `o`, or the empty list where it is left out.
pub open spec fn or_empty(o: Option<Seq<Seq<char>>>) -> Seq<Seq<char>> {
    match o {
        Some(v) => v,
        None => seq![],
    }
}

impl DnsStateView {
    /// The configured name servers, search domains or options.
    pub open spec fn servers(self) -> Seq<Seq<char>> {
        match self.config {
            Some(c) => or_empty(c.server),
            None => seq![],
        }
    }

    /// The configured search domains.
    pub open spec fn searches(self) -> Seq<Seq<char>> {
        match self.config {
            Some(c) => or_empty(c.search),
            None => seq![],
        }
    }

    /// The configured resolver options.
    pub open spec fn options(self) -> Seq<Seq<char>> {
        match self.config {
            Some(c) => or_empty(c.options),
            None => seq![],
        }
    }
}

/// The DNS resolver state of the machine: what runs, and what is
/// configured.
#[derive(Debug, PartialEq, Eq)]
pub struct DnsState {
    pub running: Option<DnsClientState>,
    pub config: Option<DnsClientState>,
}

/// What an optional DNS client configuration holds.
pub open spec fn opt_conf(o: Option<DnsClientState>) -> Option<DnsClientStateView> {
    match o {
        Some(c) => Some(c@),
        None => None,
    }
}

impl View for DnsState {
    type V = DnsStateView;

    open spec fn view(&self) -> DnsStateView {
        DnsStateView { running: opt_conf(self.running), config: opt_conf(self.config) }
    }
}

fn list_or_empty(o: &Option<Vec<String>>) -> (r: Vec<String>)
    ensures
        r.deep_view() == or_empty(opt_texts(*o)),
{
    match o {
        Some(v) => clone_texts(v),
        None => {
            let r: Vec<String> = Vec::new();
            assert(r.deep_view() =~= Seq::<Seq<char>>::empty());
            r
        },
    }
}

impl DnsState {
    /// A state that says nothing.
    pub fn new() -> (r: Self)
        ensures
            r@ == (DnsStateView { running: None, config: None }),
    {
        DnsState { running: None, config: None }
    }

    /// The configured name servers.
    pub fn servers(&self) -> (r: Vec<String>)
        ensures
            r.deep_view() == self@.servers(),
    {
        match &self.config {
            Some(c) => list_or_empty(&c.server),
            None => list_or_empty(&None),
        }
    }

    /// The configured search domains.
    pub fn searches(&self) -> (r: Vec<String>)
        ensures
            r.deep_view() == self@.searches(),
    {
        match &self.config {
            Some(c) => list_or_empty(&c.search),
            None => list_or_empty(&None),
        }
    }

    /// The configured resolver options.
    pub fn options(&self) -> (r: Vec<String>)
        ensures
            r.deep_view() == self@.options(),
    {
        match &self.config {
            Some(c) => list_or_empty(&c.options),
            None => list_or_empty(&None),
        }
    }
}

/// The list that results where `desired` is laid over `current`.
pub open spec fn overlaid(desired: Option<Seq<Seq<char>>>, current: Seq<Seq<char>>) -> Seq<
    Seq<char>,
> {
    match desired {
        Some(v) => v,
        None => current,
    }
}

/// The merged global DNS configuration of a desired and a running state:
/// the running configuration where nothing is desired; nothing where the
/// desired configuration asks for a purge; else each desired list in
/// place of the running one. It is changed where it differs from the
/// running configuration.
pub open spec fn merged_dns(desired: DnsStateView, current: DnsStateView) -> MergedDnsStateView {
    let (servers, searches, options) = match desired.config {
        None => (current.servers(), current.searches(), current.options()),
        Some(c) => if c.is_purge() {
            (seq![], seq![], seq![])
        } else {
            (
                overlaid(c.server, current.servers()),
                overlaid(c.search, current.searches()),
                overlaid(c.options, current.options()),
            )
        },
    };
    MergedDnsStateView {
        servers,
        searches,
        options,
        changed: servers != current.servers() || searches != current.searches() || options
            != current.options(),
    }
}

/// The global DNS configuration that results from a desired and a
/// running state.
#[derive(Debug)]
pub struct MergedDnsState {
    pub servers: Vec<String>,
    pub searches: Vec<String>,
    pub options: Vec<String>,
    /// Whether the configuration differs from the running one.
    pub changed: bool,
}

impl View for MergedDnsState {
    type V = MergedDnsStateView;

    open spec fn view(&self) -> MergedDnsStateView {
        MergedDnsStateView {
            servers: self.servers.deep_view(),
            searches: self.searches.deep_view(),
            options: self.options.deep_view(),
            changed: self.changed,
        }
    }
}

fn overlay(desired: &Option<Vec<String>>, current: Vec<String>) -> (r: Vec<String>)
    ensures
        r.deep_view() == overlaid(opt_texts(*desired), current.deep_view()),
{
    match desired {
        Some(v) => clone_texts(v),
        None => current,
    }
}

/// Whether the merged configuration holds what the state `current`
/// holds, name servers compared by their canonical texts.
pub open spec fn dns_verified(merged: MergedDnsStateView, current: DnsStateView) -> bool {
    canonical_servers(merged.servers) == canonical_servers(current.servers()) && merged.searches
        == current.searches() && merged.options == current.options()
}

impl MergedDnsState {
    /// The global DNS configuration that results from a desired and a
    /// running state.
    pub fn new(desired: DnsState, current: DnsState) -> (r: Self)
        ensures
            r@ == merged_dns(desired@, current@),
    {
        let cur_servers = current.servers();
        let cur_searches = current.searches();
        let cur_options = current.options();
        let mut servers = current.servers();
        let mut searches = current.searches();
        let mut options = current.options();
        match &desired.config {
            None => {},
            Some(c) => {
                if c.is_purge() {
                    servers = list_or_empty(&None);
                    searches = list_or_empty(&None);
                    options = list_or_empty(&None);
                } else {
                    servers = overlay(&c.server, servers);
                    searches = overlay(&c.search, searches);
                    options = overlay(&c.options, options);
                }
            },
        }
        let changed = !texts_eq(&servers, &cur_servers) || !texts_eq(&searches, &cur_searches)
            || !texts_eq(&options, &cur_options);
        MergedDnsState { servers, searches, options, changed }
    }

    /// Whether the configuration differs from the running one.
    pub fn is_changed(&self) -> (r: bool)
        ensures
            r == self@.changed,
    {
        self.changed
    }

    /// Holds the state found after applying to the merged configuration.
    pub fn verify(&self, current: &DnsState) -> (r: Result<(), NmstateError>)
        ensures
            r is Ok <==> dns_verified(self@, current@),
            r is Err ==> r->Err_0.kind() == ErrorKind::VerificationError,
    {
        let want = canonical_dns_servers(&self.servers);
        let have = canonical_dns_servers(&current.servers());
        if !texts_eq(&want, &have) {
            return Err(
                NmstateError::with_text(
                    ErrorKind::VerificationError,
                    "Failed to apply DNS config: the name servers differ",
                ),
            );
        }
        if !texts_eq(&self.searches, &current.searches()) {
            return Err(
                NmstateError::with_text(
                    ErrorKind::VerificationError,
                    "Failed to apply DNS config: the search domains differ",
                ),
            );
        }
        if !texts_eq(&self.options, &current.options()) {
            return Err(
                NmstateError::with_text(
                    ErrorKind::VerificationError,
                    "Failed to apply DNS config: the options differ",
                ),
            );
        }
        Ok(())
    }
}

} // verus!
