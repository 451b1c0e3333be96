use crate::error::{ErrorKind, NmstateError};
use crate::ip::model::IpStack;
use crate::ip::stack::InterfaceIpv4;
use crate::ip::stack6::InterfaceIpv6;
use crate::ip::types::WaitIp;
use crate::text::{clone_opt_text, opt_text};
use vstd::prelude::*;

verus! {

/// The kinds of interface.
#[derive(Debug, Clone, Copy, PartialEq, Eq, Structural)]
pub enum InterfaceType {
    Bond,
    LinuxBridge,
    Dummy,
    Ethernet,
    Loopback,
    MacVlan,
    MacVtap,
    OvsBridge,
    OvsInterface,
    OvsPort,
    Veth,
    Vlan,
    Vrf,
    Vxlan,
    InfiniBand,
    MacSec,
    Ipsec,
    Unknown,
}

impl InterfaceType {
    /// Whether interfaces of this kind live outside the kernel.
    pub open spec fn spec_is_userspace(&self) -> bool {
        *self == InterfaceType::OvsBridge || *self == InterfaceType::OvsPort
    }

    /// Whether interfaces of this kind live outside the kernel, and only
    /// hold other interfaces together.
    #[verifier::when_used_as_spec(spec_is_userspace)]
    pub fn is_userspace(&self) -> (r: bool)
        ensures
            r == self.spec_is_userspace(),
    {
        match self {
            InterfaceType::OvsBridge => true,
            InterfaceType::OvsPort => true,
            _ => false,
        }
    }

    /// Whether interfaces of this kind hold ports.
    pub open spec fn spec_is_controller(&self) -> bool {
        *self == InterfaceType::Bond || *self == InterfaceType::LinuxBridge || *self
            == InterfaceType::OvsBridge || *self == InterfaceType::Vrf
    }

    /// Whether interfaces of this kind hold ports.
    #[verifier::when_used_as_spec(spec_is_controller)]
    pub fn is_controller(&self) -> (r: bool)
        ensures
            r == self.spec_is_controller(),
    {
        match self {
            InterfaceType::Bond => true,
            InterfaceType::LinuxBridge => true,
            InterfaceType::OvsBridge => true,
            InterfaceType::Vrf => true,
            _ => false,
        }
    }

    /// Whether an interface of this kind may hold global DNS settings: it
    /// lives in the kernel and is no loopback.
    pub open spec fn may_hold_dns(&self) -> bool {
        !self.spec_is_userspace() && *self != InterfaceType::Loopback
    }
}

/// The state that an interface is in, or is asked to be in.
#[derive(Debug, Clone, Copy, PartialEq, Eq, Structural)]
pub enum InterfaceState {
    Up,
    Down,
    Absent,
    Ignore,
}

/// What an interface holds of what all kinds share.
pub struct BaseInterfaceView {
    pub name: Seq<char>,
    pub iface_type: InterfaceType,
    pub state: InterfaceState,
    pub controller: Option<Seq<char>>,
    pub controller_type: Option<InterfaceType>,
    pub ipv4: Option<IpStack>,
    pub ipv6: Option<IpStack>,
    pub wait_ip: Option<WaitIp>,
}

impl BaseInterfaceView {
    /// The stack of one family.
    pub open spec fn stack(self, is_ipv6: bool) -> Option<IpStack> {
        if is_ipv6 {
            self.ipv6
        } else {
            self.ipv4
        }
    }

    /// The interface with the stack of one family replaced.
    pub open spec fn with_stack(self, is_ipv6: bool, stack: Option<IpStack>) -> Self {
        if is_ipv6 {
            BaseInterfaceView { ipv6: stack, ..self }
        } else {
            BaseInterfaceView { ipv4: stack, ..self }
        }
    }

    /// Whether the interface is asked to be removed.
    pub open spec fn is_absent(self) -> bool {
        self.state == InterfaceState::Absent
    }

    /// Whether the interface can hold IP configuration: all kinds can but
    /// those that live outside the kernel and only hold ports.
    pub open spec fn can_have_ip(self) -> bool {
        !self.iface_type.spec_is_userspace()
    }

    /// Whether a stack of the family is there and switched on.
    pub open spec fn stack_enabled(self, is_ipv6: bool) -> bool {
        self.stack(is_ipv6) is Some && self.stack(is_ipv6)->0.enabled
    }

    /// Whether the interface waits for a stack that is off.
    pub open spec fn wait_ip_conflict(self) -> bool {
        self.wait_ip is Some && ((self.wait_ip->0.needs_ipv4() && !self.stack_enabled(false)) || (
        self.wait_ip->0.needs_ipv6() && !self.stack_enabled(true)))
    }

    /// An interface of the same name and kind, up, that states nothing
    /// else.
    pub open spec fn name_type_only(self) -> Self {
        BaseInterfaceView {
            name: self.name,
            iface_type: self.iface_type,
            state: InterfaceState::Up,
            controller: None,
            controller_type: None,
            ipv4: None,
            ipv6: None,
            wait_ip: None,
        }
    }
}

/// What all kinds of interface share: identity, state, the controller
/// that holds the interface, and the two IP stacks.
#[derive(Debug, PartialEq, Eq)]
pub struct BaseInterface {
    pub name: String,
    pub iface_type: InterfaceType,
    pub state: InterfaceState,
    /// The name of the bond, bridge or VRF that holds this interface.
    pub controller: Option<String>,
    pub controller_type: Option<InterfaceType>,
    pub ipv4: Option<InterfaceIpv4>,
    pub ipv6: Option<InterfaceIpv6>,
    pub wait_ip: Option<WaitIp>,
}

/// What an optional IPv4 stack holds.
pub open spec fn opt_ipv4(o: Option<InterfaceIpv4>) -> Option<IpStack> {
    match o {
        Some(s) => Some(s@),
        None => None,
    }
}

/// What an optional IPv6 stack holds.
pub open spec fn opt_ipv6(o: Option<InterfaceIpv6>) -> Option<IpStack> {
    match o {
        Some(s) => Some(s@),
        None => None,
    }
}

impl View for BaseInterface {
    type V = BaseInterfaceView;

    open spec fn view(&self) -> BaseInterfaceView {
        BaseInterfaceView {
            name: self.name@,
            iface_type: self.iface_type,
            state: self.state,
            controller: opt_text(self.controller),
            controller_type: self.controller_type,
            ipv4: opt_ipv4(self.ipv4),
            ipv6: opt_ipv6(self.ipv6),
            wait_ip: self.wait_ip,
        }
    }
}

/// A copy of an optional IPv4 stack.
pub fn clone_opt_ipv4(o: &Option<InterfaceIpv4>) -> (r: Option<InterfaceIpv4>)
    ensures
        opt_ipv4(r) == opt_ipv4(*o),
{
    match o {
        Some(s) => Some(s.clone()),
        None => None,
    }
}

/// A copy of an optional IPv6 stack.
pub fn clone_opt_ipv6(o: &Option<InterfaceIpv6>) -> (r: Option<InterfaceIpv6>)
    ensures
        opt_ipv6(r) == opt_ipv6(*o),
{
    match o {
        Some(s) => Some(s.clone()),
        None => None,
    }
}

impl Clone for BaseInterface {
    fn clone(&self) -> (r: Self)
        ensures
            r@ == self@,
    {
        BaseInterface {
            name: self.name.clone(),
            iface_type: self.iface_type,
            state: self.state,
            controller: clone_opt_text(&self.controller),
            controller_type: self.controller_type,
            ipv4: clone_opt_ipv4(&self.ipv4),
            ipv6: clone_opt_ipv6(&self.ipv6),
            wait_ip: self.wait_ip,
        }
    }
}

impl BaseInterface {
    /// An interface of the given name and kind, up, that states nothing
    /// else.
    pub fn new(name: String, iface_type: InterfaceType) -> (r: Self)
        ensures
            r@ == (BaseInterfaceView {
                name: name@,
                iface_type,
                state: InterfaceState::Up,
                controller: None,
                controller_type: None,
                ipv4: None,
                ipv6: None,
                wait_ip: None,
            }),
    {
        BaseInterface {
            name,
            iface_type,
            state: InterfaceState::Up,
            controller: None,
            controller_type: None,
            ipv4: None,
            ipv6: None,
            wait_ip: None,
        }
    }

    /// The name of the interface.
    pub fn name(&self) -> (r: &str)
        ensures
            r@ == self@.name,
    {
        self.name.as_str()
    }

    /// The kind of the interface.
    pub fn iface_type(&self) -> (r: InterfaceType)
        ensures
            r == self@.iface_type,
    {
        self.iface_type
    }

    /// Whether the interface is asked to be removed.
    pub fn is_absent(&self) -> (r: bool)
        ensures
            r == self@.is_absent(),
    {
        self.state == InterfaceState::Absent
    }

    /// Whether the interface holds ports.
    pub fn is_controller(&self) -> (r: bool)
        ensures
            r == self@.iface_type.spec_is_controller(),
    {
        self.iface_type.is_controller()
    }

    /// Whether the interface can hold IP configuration.
    pub fn can_have_ip(&self) -> (r: bool)
        ensures
            r == self@.can_have_ip(),
    {
        !self.iface_type.is_userspace()
    }

    /// An interface of the same name and kind, up, that states nothing
    /// else.
    pub fn clone_name_type_only(&self) -> (r: Self)
        ensures
            r@ == self@.name_type_only(),
    {
        BaseInterface::new(self.name.clone(), self.iface_type)
    }

    /// Whether the stack of a family is there and switched on.
    pub fn is_stack_enabled(&self, is_ipv6: bool) -> (r: bool)
        ensures
            r == self@.stack_enabled(is_ipv6),
    {
        if is_ipv6 {
            match &self.ipv6 {
                Some(s) => s.enabled,
                None => false,
            }
        } else {
            match &self.ipv4 {
                Some(s) => s.enabled,
                None => false,
            }
        }
    }
}

/// Checks that an interface does not wait for an IP stack that is
/// switched off.
pub fn validate_wait_ip(base_iface: &BaseInterface) -> (r: Result<(), NmstateError>)
    ensures
        r is Err <==> base_iface@.wait_ip_conflict(),
        r is Err ==> r->Err_0.kind() == ErrorKind::InvalidArgument,
{
    match base_iface.wait_ip {
        Some(wait_ip) => {
            if (wait_ip == WaitIp::Ipv4 || wait_ip == WaitIp::Ipv4AndIpv6)
                && !base_iface.is_stack_enabled(false) {
                return Err(
                    NmstateError::with_text(
                        ErrorKind::InvalidArgument,
                        "Cannot set 'wait-ip' that includes IPv4 with IPv4 disabled",
                    ),
                );
            }
            if (wait_ip == WaitIp::Ipv6 || wait_ip == WaitIp::Ipv4AndIpv6)
                && !base_iface.is_stack_enabled(true) {
                return Err(
                    NmstateError::with_text(
                        ErrorKind::InvalidArgument,
                        "Cannot set 'wait-ip' that includes IPv6 with IPv6 disabled",
                    ),
                );
            }
            Ok(())
        },
        None => Ok(()),
    }
}

} // verus!
