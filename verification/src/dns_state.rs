use crate::text::{clone_texts, opt_texts};
use vstd::prelude::*;

verus! {

/// What a DNS client configuration holds.
pub struct DnsClientStateView {
    pub server: Option<Seq<Seq<char>>>,
    pub search: Option<Seq<Seq<char>>>,
    pub options: Option<Seq<Seq<char>>>,
    pub priority: Option<i32>,
}

impl DnsClientStateView {
    /// Whether the configuration names no server, no search domain and no
    /// option.
    pub open spec fn is_null(self) -> bool {
        &&& self.server is None || self.server->0.len() == 0
        &&& self.search is None || self.search->0.len() == 0
        &&& self.options is None || self.options->0.len() == 0
    }

    /// Whether the configuration asks for all DNS settings to be removed:
    /// all three lists are left out, or all three are given and empty.
    pub open spec fn is_purge(self) -> bool {
        ||| self.server is None && self.search is None && self.options is None
        ||| {
            &&& self.server is Some && self.server->0.len() == 0
            &&& self.search is Some && self.search->0.len() == 0
            &&& self.options is Some && self.options->0.len() == 0
        }
    }

    /// The configuration that clears the DNS settings of an interface.
    pub open spec fn empty() -> Self {
        DnsClientStateView {
            server: Some(seq![]),
            search: Some(seq![]),
            options: Some(seq![]),
            priority: None,
        }
    }
}

/// DNS client configuration: name servers, search domains and resolver
/// options, each of them optional, and the priority among interfaces.
#[derive(Debug, PartialEq, Eq)]
pub struct DnsClientState {
    pub server: Option<Vec<String>>,
    pub search: Option<Vec<String>>,
    pub options: Option<Vec<String>>,
    pub priority: Option<i32>,
}

impl View for DnsClientState {
    type V = DnsClientStateView;

    open spec fn view(&self) -> DnsClientStateView {
        DnsClientStateView {
            server: opt_texts(self.server),
            search: opt_texts(self.search),
            options: opt_texts(self.options),
            priority: self.priority,
        }
    }
}

fn clone_opt_texts(o: &Option<Vec<String>>) -> (r: Option<Vec<String>>)
    ensures
        opt_texts(r) == opt_texts(*o),
{
    match o {
        Some(v) => Some(clone_texts(v)),
        None => None,
    }
}

fn is_none_or_empty(o: &Option<Vec<String>>) -> (r: bool)
    ensures
        r == (opt_texts(*o) is None || opt_texts(*o)->0.len() == 0),
{
    match o {
        Some(v) => v.len() == 0,
        None => true,
    }
}

fn is_some_and_empty(o: &Option<Vec<String>>) -> (r: bool)
    ensures
        r == (opt_texts(*o) is Some && opt_texts(*o)->0.len() == 0),
{
    match o {
        Some(v) => v.len() == 0,
        None => false,
    }
}

impl Clone for DnsClientState {
    fn clone(&self) -> (r: Self)
        ensures
            r@ == self@,
    {
        DnsClientState {
            server: clone_opt_texts(&self.server),
            search: clone_opt_texts(&self.search),
            options: clone_opt_texts(&self.options),
            priority: self.priority,
        }
    }
}

impl DnsClientState {
    /// A configuration that states nothing.
    pub fn new() -> (r: Self)
        ensures
            r@ == (DnsClientStateView { server: None, search: None, options: None, priority: None }),
    {
        DnsClientState { server: None, search: None, options: None, priority: None }
    }

    /// Whether the configuration names no server, no search domain and no
    /// option.
    pub fn is_null(&self) -> (r: bool)
        ensures
            r == self@.is_null(),
    {
        is_none_or_empty(&self.server) && is_none_or_empty(&self.search) && is_none_or_empty(
            &self.options,
        )
    }

    /// Whether the configuration asks for all DNS settings to be removed.
    pub fn is_purge(&self) -> (r: bool)
        ensures
            r == self@.is_purge(),
    {
        (self.server.is_none() && self.search.is_none() && self.options.is_none()) || (
        is_some_and_empty(&self.server) && is_some_and_empty(&self.search) && is_some_and_empty(
            &self.options,
        ))
    }
}

} // verus!
