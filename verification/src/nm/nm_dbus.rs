use crate::text::str_eq;
use vstd::prelude::*;

verus! {

/// The flag of an active connection that the backend did not activate
/// itself.
pub const NM_ACTIVATION_STATE_FLAG_EXTERNAL: u32 = 0x80;

/// An active connection of the backend.
#[derive(Debug, PartialEq, Eq)]
pub struct NmActiveConnection {
    pub iface_name: String,
    pub iface_type: String,
    pub state_flags: u32,
}

/// The state of a device of the backend.
#[derive(Debug, Clone, Copy, PartialEq, Eq, Structural)]
pub enum NmDeviceState {
    Unknown,
    Unmanaged,
    Unavailable,
    Disconnected,
    Prepare,
    Config,
    NeedAuth,
    IpConfig,
    IpCheck,
    Secondaries,
    Activated,
    Deactivating,
    Failed,
}

/// A device of the backend.
#[derive(Debug, PartialEq, Eq)]
pub struct NmDevice {
    pub name: String,
    pub iface_type: String,
    pub state: NmDeviceState,
}

/// Whether `t` is the backend's name of a kind of interface that lives in
/// the kernel.
pub open spec fn is_kernel_iface_type(t: Seq<char>) -> bool {
    t == "802-3-ethernet"@ || t == "veth"@ || t == "bond"@ || t == "dummy"@ || t == "bridge"@ || t
        == "ovs-interface"@ || t == "vrf"@ || t == "vlan"@ || t == "vxlan"@ || t == "macvlan"@ || t
        == "loopback"@ || t == "infiniband"@ || t == "macsec"@
}

/// Whether `t` is the backend's name of a kind of interface that lives in
/// the kernel.
pub fn is_supported_kernel_iface_type(t: &str) -> (r: bool)
    ensures
        r == is_kernel_iface_type(t@),
{
    str_eq(t, "802-3-ethernet") || str_eq(t, "veth") || str_eq(t, "bond") || str_eq(t, "dummy")
        || str_eq(t, "bridge") || str_eq(t, "ovs-interface") || str_eq(t, "vrf") || str_eq(
        t,
        "vlan",
    ) || str_eq(t, "vxlan") || str_eq(t, "macvlan") || str_eq(t, "loopback") || str_eq(
        t,
        "infiniband",
    ) || str_eq(t, "macsec")
}

} // verus!
