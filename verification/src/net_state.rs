use crate::dns::MergedDnsState;
use crate::ifaces::inter_ifaces::MergedInterfaces;
use crate::nm::dns_model::MergedNetworkStateView;
use vstd::prelude::*;

verus! {

/// The merged state of the network: the interfaces in their views, and
/// the global DNS configuration.
#[derive(Debug)]
pub struct MergedNetworkState {
    pub interfaces: MergedInterfaces,
    pub dns: MergedDnsState,
}

impl View for MergedNetworkState {
    type V = MergedNetworkStateView;

    open spec fn view(&self) -> MergedNetworkStateView {
        MergedNetworkStateView { interfaces: self.interfaces@, dns: self.dns@ }
    }
}

} // verus!
