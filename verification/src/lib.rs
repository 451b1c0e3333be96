pub mod addr;
pub mod addr_fmt;
pub mod addr_laws;
pub mod addr_round_trip;
pub mod dns;
pub mod dns_state;
pub mod error;
pub mod ifaces;
pub mod ip;
pub mod json;
pub mod net_state;
pub mod nispor;
pub mod nm;
pub mod text;

pub use addr::IpAddr;
pub use dns::{DnsState, MergedDnsState};
pub use dns_state::DnsClientState;
pub use error::{ErrorKind, NmstateError};
pub use ifaces::base::{BaseInterface, InterfaceState, InterfaceType};
pub use ifaces::inter_ifaces::{Interfaces, MergedInterfaces};
pub use ifaces::merged::MergedInterface;
pub use ip::address::InterfaceIpAddr;
pub use ip::schema::InterfaceIp;
pub use ip::stack::InterfaceIpv4;
pub use ip::stack6::InterfaceIpv6;
pub use ip::types::{
    AddressFamily, Dhcpv4ClientId, Dhcpv6Duid, IpProp, Ipv6AddrGenMode, MptcpAddressFlag, WaitIp,
};
pub use net_state::MergedNetworkState;
pub use nm::conn::{NmConnection, NmRange, NmSettingConnection, NmSettingsConnectionFlag};
pub use nm::nm_dbus::{NmActiveConnection, NmDevice, NmDeviceState};
