use crate::text::{same_ignoring_ascii_case, str_eq_ignore_ascii_case};
use vstd::prelude::*;
use vstd::std_specs::convert::FromSpecImpl;

verus! {

/// The fields of an IP stack that a user may write.
#[derive(Debug, Clone, Copy, PartialEq, Eq, Structural)]
pub enum IpProp {
    Enabled,
    Dhcp,
    Autoconf,
    DhcpClientId,
    DhcpDuid,
    Addresses,
    AutoDns,
    AutoGateway,
    AutoRoutes,
    AutoTableId,
    AddrGenMode,
    DhcpSendHostname,
    DhcpCustomHostname,
}

/// A flag of MPTCP on an address.
#[derive(Debug, Clone, Copy, PartialEq, Eq, PartialOrd, Ord, Structural)]
pub enum MptcpAddressFlag {
    Signal,
    Subflow,
    Backup,
    Fullmesh,
}

/// What a DHCPv4 client identifier holds.
pub enum Dhcpv4ClientIdView {
    LinkLayerAddress,
    IaidPlusDuid,
    Other(Seq<char>),
}

/// DHCPv4 client identifier.
#[derive(Debug, PartialEq, Eq)]
pub enum Dhcpv4ClientId {
    /// The link layer address; written `ll`.
    LinkLayerAddress,
    /// 32 bits of IAID followed by the DUID; written `iaid+duid`.
    IaidPlusDuid,
    /// A hexadecimal string, or a kind that only the backend knows.
    Other(String),
}

impl View for Dhcpv4ClientId {
    type V = Dhcpv4ClientIdView;

    open spec fn view(&self) -> Dhcpv4ClientIdView {
        match self {
            Dhcpv4ClientId::LinkLayerAddress => Dhcpv4ClientIdView::LinkLayerAddress,
            Dhcpv4ClientId::IaidPlusDuid => Dhcpv4ClientIdView::IaidPlusDuid,
            Dhcpv4ClientId::Other(s) => Dhcpv4ClientIdView::Other(s@),
        }
    }
}

impl Clone for Dhcpv4ClientId {
    fn clone(&self) -> (r: Self)
        ensures
            r@ == self@,
    {
        match self {
            Dhcpv4ClientId::LinkLayerAddress => Dhcpv4ClientId::LinkLayerAddress,
            Dhcpv4ClientId::IaidPlusDuid => Dhcpv4ClientId::IaidPlusDuid,
            Dhcpv4ClientId::Other(s) => Dhcpv4ClientId::Other(s.clone()),
        }
    }
}

impl Dhcpv4ClientIdView {
    /// The identifier that a text stands for: a known name in either case,
    /// or the text itself.
    pub open spec fn from_text(s: Seq<char>) -> Self {
        if same_ignoring_ascii_case(s, "ll"@) {
            Dhcpv4ClientIdView::LinkLayerAddress
        } else if same_ignoring_ascii_case(s, "iaid+duid"@) {
            Dhcpv4ClientIdView::IaidPlusDuid
        } else {
            Dhcpv4ClientIdView::Other(s)
        }
    }

    /// The text that stands for the identifier.
    pub open spec fn text(self) -> Seq<char> {
        match self {
            Dhcpv4ClientIdView::LinkLayerAddress => "ll"@,
            Dhcpv4ClientIdView::IaidPlusDuid => "iaid+duid"@,
            Dhcpv4ClientIdView::Other(s) => s,
        }
    }
}

impl From<String> for Dhcpv4ClientId {
    fn from(s: String) -> (r: Self)
        ensures
            r@ == Dhcpv4ClientIdView::from_text(s@),
    {
        if str_eq_ignore_ascii_case(s.as_str(), "ll") {
            Dhcpv4ClientId::LinkLayerAddress
        } else if str_eq_ignore_ascii_case(s.as_str(), "iaid+duid") {
            Dhcpv4ClientId::IaidPlusDuid
        } else {
            Dhcpv4ClientId::Other(s)
        }
    }
}

impl FromSpecImpl<String> for Dhcpv4ClientId {
    open spec fn obeys_from_spec() -> bool {
        true
    }

    open spec fn from_spec(s: String) -> Self {
        if same_ignoring_ascii_case(s@, "ll"@) {
            Dhcpv4ClientId::LinkLayerAddress
        } else if same_ignoring_ascii_case(s@, "iaid+duid"@) {
            Dhcpv4ClientId::IaidPlusDuid
        } else {
            Dhcpv4ClientId::Other(s)
        }
    }
}

impl Dhcpv4ClientId {
    /// The text that stands for the identifier.
    pub fn to_string(&self) -> (r: String)
        ensures
            r@ == self@.text(),
    {
        match self {
            Dhcpv4ClientId::LinkLayerAddress => "ll".to_owned(),
            Dhcpv4ClientId::IaidPlusDuid => "iaid+duid".to_owned(),
            Dhcpv4ClientId::Other(s) => s.clone(),
        }
    }
}

/// A text that is no known name of a client identifier is kept as it is,
/// and is written back as it was.
pub proof fn law_client_id_other_round_trip(s: Seq<char>)
    requires
        !same_ignoring_ascii_case(s, "ll"@),
        !same_ignoring_ascii_case(s, "iaid+duid"@),
    ensures
        Dhcpv4ClientIdView::from_text(s) == Dhcpv4ClientIdView::Other(s),
        Dhcpv4ClientIdView::from_text(s).text() == s,
        Dhcpv4ClientIdView::from_text(Dhcpv4ClientIdView::Other(s).text())
            == Dhcpv4ClientIdView::Other(s),
{
}

/// What a DHCPv6 unique identifier holds.
pub enum Dhcpv6DuidView {
    LinkLayerAddressPlusTime,
    EnterpriseNumber,
    LinkLayerAddress,
    Uuid,
    Other(Seq<char>),
}

/// DHCPv6 unique identifier.
#[derive(Debug, PartialEq, Eq)]
pub enum Dhcpv6Duid {
    /// Link layer address and time; written `llt`.
    LinkLayerAddressPlusTime,
    /// Assigned by the vendor from its enterprise number; written `en`.
    EnterpriseNumber,
    /// Link layer address; written `ll`.
    LinkLayerAddress,
    /// A universally unique identifier; written `uuid`.
    Uuid,
    /// A kind that only the backend knows.
    Other(String),
}

impl View for Dhcpv6Duid {
    type V = Dhcpv6DuidView;

    open spec fn view(&self) -> Dhcpv6DuidView {
        match self {
            Dhcpv6Duid::LinkLayerAddressPlusTime => Dhcpv6DuidView::LinkLayerAddressPlusTime,
            Dhcpv6Duid::EnterpriseNumber => Dhcpv6DuidView::EnterpriseNumber,
            Dhcpv6Duid::LinkLayerAddress => Dhcpv6DuidView::LinkLayerAddress,
            Dhcpv6Duid::Uuid => Dhcpv6DuidView::Uuid,
            Dhcpv6Duid::Other(s) => Dhcpv6DuidView::Other(s@),
        }
    }
}

impl Clone for Dhcpv6Duid {
    fn clone(&self) -> (r: Self)
        ensures
            r@ == self@,
    {
        match self {
            Dhcpv6Duid::LinkLayerAddressPlusTime => Dhcpv6Duid::LinkLayerAddressPlusTime,
            Dhcpv6Duid::EnterpriseNumber => Dhcpv6Duid::EnterpriseNumber,
            Dhcpv6Duid::LinkLayerAddress => Dhcpv6Duid::LinkLayerAddress,
            Dhcpv6Duid::Uuid => Dhcpv6Duid::Uuid,
            Dhcpv6Duid::Other(s) => Dhcpv6Duid::Other(s.clone()),
        }
    }
}

impl Dhcpv6DuidView {
    /// The identifier that a text stands for: a known name in either case,
    /// or the text itself.
    pub open spec fn from_text(s: Seq<char>) -> Self {
        if same_ignoring_ascii_case(s, "llt"@) {
            Dhcpv6DuidView::LinkLayerAddressPlusTime
        } else if same_ignoring_ascii_case(s, "en"@) {
            Dhcpv6DuidView::EnterpriseNumber
        } else if same_ignoring_ascii_case(s, "ll"@) {
            Dhcpv6DuidView::LinkLayerAddress
        } else if same_ignoring_ascii_case(s, "uuid"@) {
            Dhcpv6DuidView::Uuid
        } else {
            Dhcpv6DuidView::Other(s)
        }
    }

    /// The text that stands for the identifier.
    pub open spec fn text(self) -> Seq<char> {
        match self {
            Dhcpv6DuidView::LinkLayerAddressPlusTime => "llt"@,
            Dhcpv6DuidView::EnterpriseNumber => "en"@,
            Dhcpv6DuidView::LinkLayerAddress => "ll"@,
            Dhcpv6DuidView::Uuid => "uuid"@,
            Dhcpv6DuidView::Other(s) => s,
        }
    }
}

impl From<String> for Dhcpv6Duid {
    fn from(s: String) -> (r: Self)
        ensures
            r@ == Dhcpv6DuidView::from_text(s@),
    {
        if str_eq_ignore_ascii_case(s.as_str(), "llt") {
            Dhcpv6Duid::LinkLayerAddressPlusTime
        } else if str_eq_ignore_ascii_case(s.as_str(), "en") {
            Dhcpv6Duid::EnterpriseNumber
        } else if str_eq_ignore_ascii_case(s.as_str(), "ll") {
            Dhcpv6Duid::LinkLayerAddress
        } else if str_eq_ignore_ascii_case(s.as_str(), "uuid") {
            Dhcpv6Duid::Uuid
        } else {
            Dhcpv6Duid::Other(s)
        }
    }
}

impl FromSpecImpl<String> for Dhcpv6Duid {
    open spec fn obeys_from_spec() -> bool {
        true
    }

    open spec fn from_spec(s: String) -> Self {
        if same_ignoring_ascii_case(s@, "llt"@) {
            Dhcpv6Duid::LinkLayerAddressPlusTime
        } else if same_ignoring_ascii_case(s@, "en"@) {
            Dhcpv6Duid::EnterpriseNumber
        } else if same_ignoring_ascii_case(s@, "ll"@) {
            Dhcpv6Duid::LinkLayerAddress
        } else if same_ignoring_ascii_case(s@, "uuid"@) {
            Dhcpv6Duid::Uuid
        } else {
            Dhcpv6Duid::Other(s)
        }
    }
}

impl Dhcpv6Duid {
    /// The text that stands for the identifier.
    pub fn to_string(&self) -> (r: String)
        ensures
            r@ == self@.text(),
    {
        match self {
            Dhcpv6Duid::LinkLayerAddressPlusTime => "llt".to_owned(),
            Dhcpv6Duid::EnterpriseNumber => "en".to_owned(),
            Dhcpv6Duid::LinkLayerAddress => "ll".to_owned(),
            Dhcpv6Duid::Uuid => "uuid".to_owned(),
            Dhcpv6Duid::Other(s) => s.clone(),
        }
    }
}

/// A text that is no known name of a unique identifier is kept as it
/// is, and is written back as it was.
pub proof fn law_duid_other_round_trip(s: Seq<char>)
    requires
        !same_ignoring_ascii_case(s, "llt"@),
        !same_ignoring_ascii_case(s, "en"@),
        !same_ignoring_ascii_case(s, "ll"@),
        !same_ignoring_ascii_case(s, "uuid"@),
    ensures
        Dhcpv6DuidView::from_text(s) == Dhcpv6DuidView::Other(s),
        Dhcpv6DuidView::from_text(s).text() == s,
{
}

/// What a way of generating IPv6 addresses holds.
pub enum Ipv6AddrGenModeView {
    Eui64,
    StablePrivacy,
    Other(Seq<char>),
}

/// How the interface identifier of an IPv6 address is generated.
#[derive(Debug, PartialEq, Eq)]
pub enum Ipv6AddrGenMode {
    /// From the link layer address; written `eui64`.
    Eui64,
    /// Opaque and stable; written `stable-privacy`.
    StablePrivacy,
    /// A way that only the backend knows.
    Other(String),
}

impl View for Ipv6AddrGenMode {
    type V = Ipv6AddrGenModeView;

    open spec fn view(&self) -> Ipv6AddrGenModeView {
        match self {
            Ipv6AddrGenMode::Eui64 => Ipv6AddrGenModeView::Eui64,
            Ipv6AddrGenMode::StablePrivacy => Ipv6AddrGenModeView::StablePrivacy,
            Ipv6AddrGenMode::Other(s) => Ipv6AddrGenModeView::Other(s@),
        }
    }
}

impl Clone for Ipv6AddrGenMode {
    fn clone(&self) -> (r: Self)
        ensures
            r@ == self@,
    {
        match self {
            Ipv6AddrGenMode::Eui64 => Ipv6AddrGenMode::Eui64,
            Ipv6AddrGenMode::StablePrivacy => Ipv6AddrGenMode::StablePrivacy,
            Ipv6AddrGenMode::Other(s) => Ipv6AddrGenMode::Other(s.clone()),
        }
    }
}

impl Ipv6AddrGenModeView {
    /// The way that a text stands for: a known name in either case, or the
    /// text itself.
    pub open spec fn from_text(s: Seq<char>) -> Self {
        if same_ignoring_ascii_case(s, "eui64"@) {
            Ipv6AddrGenModeView::Eui64
        } else if same_ignoring_ascii_case(s, "stable-privacy"@) {
            Ipv6AddrGenModeView::StablePrivacy
        } else {
            Ipv6AddrGenModeView::Other(s)
        }
    }

    /// The text that stands for the way.
    pub open spec fn text(self) -> Seq<char> {
        match self {
            Ipv6AddrGenModeView::Eui64 => "eui64"@,
            Ipv6AddrGenModeView::StablePrivacy => "stable-privacy"@,
            Ipv6AddrGenModeView::Other(s) => s,
        }
    }
}

impl From<String> for Ipv6AddrGenMode {
    fn from(s: String) -> (r: Self)
        ensures
            r@ == Ipv6AddrGenModeView::from_text(s@),
    {
        if str_eq_ignore_ascii_case(s.as_str(), "eui64") {
            Ipv6AddrGenMode::Eui64
        } else if str_eq_ignore_ascii_case(s.as_str(), "stable-privacy") {
            Ipv6AddrGenMode::StablePrivacy
        } else {
            Ipv6AddrGenMode::Other(s)
        }
    }
}

impl FromSpecImpl<String> for Ipv6AddrGenMode {
    open spec fn obeys_from_spec() -> bool {
        true
    }

    open spec fn from_spec(s: String) -> Self {
        if same_ignoring_ascii_case(s@, "eui64"@) {
            Ipv6AddrGenMode::Eui64
        } else if same_ignoring_ascii_case(s@, "stable-privacy"@) {
            Ipv6AddrGenMode::StablePrivacy
        } else {
            Ipv6AddrGenMode::Other(s)
        }
    }
}

impl Ipv6AddrGenMode {
    /// The text that stands for the way.
    pub fn to_string(&self) -> (r: String)
        ensures
            r@ == self@.text(),
    {
        match self {
            Ipv6AddrGenMode::Eui64 => "eui64".to_owned(),
            Ipv6AddrGenMode::StablePrivacy => "stable-privacy".to_owned(),
            Ipv6AddrGenMode::Other(s) => s.clone(),
        }
    }
}

/// A text that is no known name of a way to generate addresses is kept
/// as it is, and is written back as it was.
pub proof fn law_addr_gen_mode_other_round_trip(s: Seq<char>)
    requires
        !same_ignoring_ascii_case(s, "eui64"@),
        !same_ignoring_ascii_case(s, "stable-privacy"@),
    ensures
        Ipv6AddrGenModeView::from_text(s) == Ipv6AddrGenModeView::Other(s),
        Ipv6AddrGenModeView::from_text(s).text() == s,
{
}

/// Which IP stack the backend waits for before it takes an interface as
/// activated.
#[derive(Debug, Clone, Copy, PartialEq, Eq, Structural)]
pub enum WaitIp {
    /// Either stack; written `any`.
    Any,
    /// The IPv4 stack; written `ipv4`.
    Ipv4,
    /// The IPv6 stack; written `ipv6`.
    Ipv6,
    /// Both stacks; written `ipv4+ipv6`.
    Ipv4AndIpv6,
}

impl WaitIp {
    /// The text that stands for the value.
    pub open spec fn text(self) -> Seq<char> {
        match self {
            WaitIp::Any => "any"@,
            WaitIp::Ipv4 => "ipv4"@,
            WaitIp::Ipv6 => "ipv6"@,
            WaitIp::Ipv4AndIpv6 => "ipv4+ipv6"@,
        }
    }

    /// The text that stands for the value.
    pub fn to_string(&self) -> (r: String)
        ensures
            r@ == self.text(),
    {
        match self {
            WaitIp::Any => "any".to_owned(),
            WaitIp::Ipv4 => "ipv4".to_owned(),
            WaitIp::Ipv6 => "ipv6".to_owned(),
            WaitIp::Ipv4AndIpv6 => "ipv4+ipv6".to_owned(),
        }
    }

    /// Whether the IPv4 stack is waited for.
    pub open spec fn needs_ipv4(self) -> bool {
        self == WaitIp::Ipv4 || self == WaitIp::Ipv4AndIpv6
    }

    /// Whether the IPv6 stack is waited for.
    pub open spec fn needs_ipv6(self) -> bool {
        self == WaitIp::Ipv6 || self == WaitIp::Ipv4AndIpv6
    }
}

/// The number of the IPv4 family.
pub const AF_INET: u8 = 2;

/// The number of the IPv6 family.
pub const AF_INET6: u8 = 10;

/// The family of an address, as the kernel numbers it.
#[derive(Debug, Clone, Copy, PartialEq, Eq, Structural)]
pub enum AddressFamily {
    IPv4,
    IPv6,
    Unknown,
}

impl From<u8> for AddressFamily {
    fn from(d: u8) -> (r: Self)
        ensures
            r == (if d == 2 {
                AddressFamily::IPv4
            } else if d == 10 {
                AddressFamily::IPv6
            } else {
                AddressFamily::Unknown
            }),
    {
        if d == AF_INET {
            AddressFamily::IPv4
        } else if d == AF_INET6 {
            AddressFamily::IPv6
        } else {
            AddressFamily::Unknown
        }
    }
}

impl FromSpecImpl<u8> for AddressFamily {
    open spec fn obeys_from_spec() -> bool {
        true
    }

    open spec fn from_spec(d: u8) -> Self {
        if d == 2 {
            AddressFamily::IPv4
        } else if d == 10 {
            AddressFamily::IPv6
        } else {
            AddressFamily::Unknown
        }
    }
}

impl Default for AddressFamily {
    fn default() -> (r: Self)
        ensures
            r == AddressFamily::IPv4,
    {
        AddressFamily::IPv4
    }
}

impl AddressFamily {
    /// The text that stands for the value.
    pub open spec fn text(self) -> Seq<char> {
        match self {
            AddressFamily::IPv4 => "ipv4"@,
            AddressFamily::IPv6 => "ipv6"@,
            AddressFamily::Unknown => "unknown"@,
        }
    }

    /// The text that stands for the value.
    pub fn to_string(&self) -> (r: String)
        ensures
            r@ == self.text(),
    {
        match self {
            AddressFamily::IPv4 => "ipv4".to_owned(),
            AddressFamily::IPv6 => "ipv6".to_owned(),
            AddressFamily::Unknown => "unknown".to_owned(),
        }
    }
}

} // verus!
