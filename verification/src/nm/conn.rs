use crate::text::opt_text;
use vstd::prelude::*;

verus! {

/// The backend's number for ports that follow its default.
pub const NM_AUTOCONENCT_PORT_DEFAULT: i32 = -1;

/// The backend's number for ports that connect with their controller.
pub const NM_AUTOCONENCT_PORT_YES: i32 = 1;

/// The backend's number for ports that do not.
pub const NM_AUTOCONENCT_PORT_NO: i32 = 0;

/// The flags of a connection profile of the backend.
#[derive(Debug, Clone, Copy, PartialEq, Eq, Structural)]
pub enum NmSettingsConnectionFlag {
    /// Not saved to disk; bit 1.
    Unsaved,
    /// Made by the backend itself; bit 2.
    NmGenerated,
    /// Removed when it is no longer active; bit 4.
    Volatile,
    /// Made for a device that was set up outside the backend; bit 8.
    External,
}

impl NmSettingsConnectionFlag {
    /// The bit that stands for the flag.
    pub open spec fn spec_bit(self) -> u32 {
        match self {
            NmSettingsConnectionFlag::Unsaved => 1,
            NmSettingsConnectionFlag::NmGenerated => 2,
            NmSettingsConnectionFlag::Volatile => 4,
            NmSettingsConnectionFlag::External => 8,
        }
    }

    /// The bit that stands for the flag.
    #[verifier::when_used_as_spec(spec_bit)]
    pub fn bit(self) -> (r: u32)
        ensures
            r == self.spec_bit(),
    {
        match self {
            NmSettingsConnectionFlag::Unsaved => 1,
            NmSettingsConnectionFlag::NmGenerated => 2,
            NmSettingsConnectionFlag::Volatile => 4,
            NmSettingsConnectionFlag::External => 8,
        }
    }
}

/// The flag `f` where its bit is set in `i`, else nothing.
pub open spec fn flag_if_set(i: u32, f: NmSettingsConnectionFlag) -> Seq<NmSettingsConnectionFlag> {
    if i & f.spec_bit() > 0 {
        seq![f]
    } else {
        seq![]
    }
}

/// The flags whose bits are set in `i`, in the order of their bits.
pub open spec fn conn_flags_of(i: u32) -> Seq<NmSettingsConnectionFlag> {
    flag_if_set(i, NmSettingsConnectionFlag::Unsaved) + flag_if_set(
        i,
        NmSettingsConnectionFlag::NmGenerated,
    ) + flag_if_set(i, NmSettingsConnectionFlag::Volatile) + flag_if_set(
        i,
        NmSettingsConnectionFlag::External,
    )
}

fn push_flag_if_set(ret: &mut Vec<NmSettingsConnectionFlag>, i: u32, f: NmSettingsConnectionFlag)
    ensures
        final(ret)@ == old(ret)@ + flag_if_set(i, f),
{
    let ghost before = ret@;
    if i & f.bit() > 0 {
        ret.push(f);
        assert(ret@ =~= before + seq![f]);
    } else {
        assert(ret@ =~= before + Seq::<NmSettingsConnectionFlag>::empty());
    }
}

/// The flags that a number holds.
pub fn from_u32_to_vec_nm_conn_flags(i: u32) -> (r: Vec<NmSettingsConnectionFlag>)
    ensures
        r@ == conn_flags_of(i),
{
    let mut ret: Vec<NmSettingsConnectionFlag> = Vec::new();
    push_flag_if_set(&mut ret, i, NmSettingsConnectionFlag::Unsaved);
    assert(ret@ =~= flag_if_set(i, NmSettingsConnectionFlag::Unsaved));
    push_flag_if_set(&mut ret, i, NmSettingsConnectionFlag::NmGenerated);
    push_flag_if_set(&mut ret, i, NmSettingsConnectionFlag::Volatile);
    push_flag_if_set(&mut ret, i, NmSettingsConnectionFlag::External);
    ret
}

/// What the `connection` setting of a profile holds.
pub struct NmSettingConnectionView {
    pub id: Option<Seq<char>>,
    pub uuid: Option<Seq<char>>,
    pub iface_type: Option<Seq<char>>,
    pub iface_name: Option<Seq<char>>,
    pub controller: Option<Seq<char>>,
    pub controller_type: Option<Seq<char>>,
    pub autoconnect: Option<bool>,
    pub autoconnect_ports: Option<bool>,
    pub lldp: Option<bool>,
    pub mptcp_flags: Option<u32>,
}

/// The `connection` setting of a profile of the backend.
#[derive(Debug, PartialEq, Eq, Default)]
pub struct NmSettingConnection {
    pub id: Option<String>,
    pub uuid: Option<String>,
    pub iface_type: Option<String>,
    pub iface_name: Option<String>,
    pub controller: Option<String>,
    pub controller_type: Option<String>,
    pub autoconnect: Option<bool>,
    pub autoconnect_ports: Option<bool>,
    pub lldp: Option<bool>,
    pub mptcp_flags: Option<u32>,
}

impl View for NmSettingConnection {
    type V = NmSettingConnectionView;

    open spec fn view(&self) -> NmSettingConnectionView {
        NmSettingConnectionView {
            id: opt_text(self.id),
            uuid: opt_text(self.uuid),
            iface_type: opt_text(self.iface_type),
            iface_name: opt_text(self.iface_name),
            controller: opt_text(self.controller),
            controller_type: opt_text(self.controller_type),
            autoconnect: self.autoconnect,
            autoconnect_ports: self.autoconnect_ports,
            lldp: self.lldp,
            mptcp_flags: self.mptcp_flags,
        }
    }
}

/// Whether ports connect with their controller, as the backend numbers
/// it: 1 for yes, 0 for no; the backend's default, nothing stated, is
/// yes; any other number says nothing.
pub open spec fn autoconnect_ports_of(val: Option<i32>) -> Option<bool> {
    match val {
        Some(v) => if v == 1 {
            Some(true)
        } else if v == 0 {
            Some(false)
        } else {
            None
        },
        None => Some(true),
    }
}

/// The number by which the backend knows whether ports connect with
/// their controller.
pub open spec fn autoconnect_ports_number(v: Option<bool>) -> i32 {
    match v {
        Some(true) => 1i32,
        Some(false) => 0i32,
        None => (-1i32),
    }
}

impl NmSettingConnection {
    /// Whether ports connect with their controller, from the backend's
    /// number.
    pub fn i32_to_autoconnect_ports(val: Option<i32>) -> (r: Option<bool>)
        ensures
            r == autoconnect_ports_of(val),
    {
        match val {
            Some(v) => if v == NM_AUTOCONENCT_PORT_YES {
                Some(true)
            } else if v == NM_AUTOCONENCT_PORT_NO {
                Some(false)
            } else {
                None
            },
            None => Some(true),
        }
    }

    /// The number that is handed to the backend for `autoconnect_ports`.
    pub fn autoconnect_ports_to_i32(&self) -> (r: i32)
        ensures
            r == autoconnect_ports_number(self.autoconnect_ports),
    {
        match self.autoconnect_ports {
            Some(true) => NM_AUTOCONENCT_PORT_YES,
            Some(false) => NM_AUTOCONENCT_PORT_NO,
            None => NM_AUTOCONENCT_PORT_DEFAULT,
        }
    }

    /// Whether the profile is handed to the backend as one that connects
    /// by itself: it is unless it says no.
    pub fn autoconnect_value(&self) -> (r: bool)
        ensures
            r == (self.autoconnect != Some(false)),
    {
        match self.autoconnect {
            Some(false) => false,
            _ => true,
        }
    }

    /// The setting from the values that the backend holds under `id`,
    /// `uuid`, `type`, `interface-name`, `master`, `slave-type`,
    /// `autoconnect`, `autoconnect-slaves`, `lldp` and `mptcp-flags`. A
    /// profile that does not state `autoconnect` connects by itself; LLDP
    /// is on where the backend holds 1.
    pub fn from_values(
        id: Option<String>,
        uuid: Option<String>,
        iface_type: Option<String>,
        iface_name: Option<String>,
        controller: Option<String>,
        controller_type: Option<String>,
        autoconnect: Option<bool>,
        autoconnect_slaves: Option<i32>,
        lldp: Option<i32>,
        mptcp_flags: Option<u32>,
    ) -> (r: Self)
        ensures
            r@ == (NmSettingConnectionView {
                id: opt_text(id),
                uuid: opt_text(uuid),
                iface_type: opt_text(iface_type),
                iface_name: opt_text(iface_name),
                controller: opt_text(controller),
                controller_type: opt_text(controller_type),
                autoconnect: match autoconnect {
                    Some(b) => Some(b),
                    None => Some(true),
                },
                autoconnect_ports: autoconnect_ports_of(autoconnect_slaves),
                lldp: match lldp {
                    Some(i) => Some(i == 1),
                    None => None,
                },
                mptcp_flags,
            }),
    {
        NmSettingConnection {
            id,
            uuid,
            iface_type,
            iface_name,
            controller,
            controller_type,
            autoconnect: match autoconnect {
                Some(b) => Some(b),
                None => Some(true),
            },
            autoconnect_ports: Self::i32_to_autoconnect_ports(autoconnect_slaves),
            lldp: match lldp {
                Some(i) => Some(i == 1),
                None => None,
            },
            mptcp_flags,
        }
    }
}

/// A setting that names the interface under the one it belongs to.
#[derive(Debug, PartialEq, Eq, Default)]
pub struct NmSettingParent {
    pub parent: Option<String>,
}

/// A range of numbers.
#[derive(Debug, Clone, Copy, PartialEq, Eq, Structural, Default)]
pub struct NmRange {
    pub start: u64,
    pub end: u64,
}

impl NmRange {
    /// The range from the values that the backend holds under `start` and
    /// `end`; 0 where it holds none.
    pub fn from_values(start: Option<u64>, end: Option<u64>) -> (r: Self)
        ensures
            r.start == match start {
                Some(v) => v,
                None => 0,
            },
            r.end == match end {
                Some(v) => v,
                None => 0,
            },
    {
        NmRange {
            start: match start {
                Some(v) => v,
                None => 0,
            },
            end: match end {
                Some(v) => v,
                None => 0,
            },
        }
    }
}

/// A connection profile of the backend, as far as the engine reads it.
#[derive(Debug, PartialEq, Eq, Default)]
pub struct NmConnection {
    pub connection: Option<NmSettingConnection>,
    pub vlan: Option<NmSettingParent>,
    pub vxlan: Option<NmSettingParent>,
    pub infiniband: Option<NmSettingParent>,
    pub mac_vlan: Option<NmSettingParent>,
    pub macsec: Option<NmSettingParent>,
    pub obj_path: String,
    pub flags: Vec<NmSettingsConnectionFlag>,
}

/// What an optional string slice holds.
pub open spec fn opt_str(o: Option<&str>) -> Option<Seq<char>> {
    match o {
        Some(s) => Some(s@),
        None => None,
    }
}

/// The field of the `connection` setting, where the profile has that
/// setting and the setting has the field.
pub open spec fn connection_member(
    c: Option<NmSettingConnection>,
    pick: spec_fn(NmSettingConnectionView) -> Option<Seq<char>>,
) -> Option<Seq<char>> {
    match c {
        Some(s) => pick(s@),
        None => None,
    }
}

/// The setting with its parent named `parent`, where there is a setting.
pub open spec fn with_parent(o: Option<NmSettingParent>, parent: Seq<char>) -> Option<
    Option<Seq<char>>,
> {
    match o {
        Some(_) => Some(Some(parent)),
        None => None,
    }
}

/// The parent that an optional setting names.
pub open spec fn opt_parent(o: Option<NmSettingParent>) -> Option<Option<Seq<char>>> {
    match o {
        Some(s) => Some(opt_text(s.parent)),
        None => None,
    }
}

fn as_opt_str(o: &Option<String>) -> (r: Option<&str>)
    ensures
        opt_str(r) == opt_text(*o),
{
    match o {
        Some(s) => Some(s.as_str()),
        None => None,
    }
}

fn set_parent_of(o: &mut Option<NmSettingParent>, parent: &str)
    ensures
        opt_parent(*final(o)) == with_parent(*old(o), parent@),
{
    match o.as_mut() {
        Some(setting) => {
            setting.parent = Some(parent.to_owned());
        },
        None => {},
    }
}

impl NmConnection {
    /// The name of the interface of the profile.
    pub fn iface_name(&self) -> (r: Option<&str>)
        ensures
            opt_str(r) == connection_member(
                self.connection,
                |c: NmSettingConnectionView| c.iface_name,
            ),
    {
        match &self.connection {
            Some(c) => as_opt_str(&c.iface_name),
            None => None,
        }
    }

    /// The backend's name of the kind of interface of the profile.
    pub fn iface_type(&self) -> (r: Option<&str>)
        ensures
            opt_str(r) == connection_member(
                self.connection,
                |c: NmSettingConnectionView| c.iface_type,
            ),
    {
        match &self.connection {
            Some(c) => as_opt_str(&c.iface_type),
            None => None,
        }
    }

    /// The name of the profile.
    pub fn id(&self) -> (r: Option<&str>)
        ensures
            opt_str(r) == connection_member(self.connection, |c: NmSettingConnectionView| c.id),
    {
        match &self.connection {
            Some(c) => as_opt_str(&c.id),
            None => None,
        }
    }

    /// The controller of the interface of the profile.
    pub fn controller(&self) -> (r: Option<&str>)
        ensures
            opt_str(r) == connection_member(
                self.connection,
                |c: NmSettingConnectionView| c.controller,
            ),
    {
        match &self.connection {
            Some(c) => as_opt_str(&c.controller),
            None => None,
        }
    }

    /// The backend's name of the kind of the controller.
    pub fn controller_type(&self) -> (r: Option<&str>)
        ensures
            opt_str(r) == connection_member(
                self.connection,
                |c: NmSettingConnectionView| c.controller_type,
            ),
    {
        match &self.connection {
            Some(c) => as_opt_str(&c.controller_type),
            None => None,
        }
    }

    /// The UUID of the profile.
    pub fn uuid(&self) -> (r: Option<&str>)
        ensures
            opt_str(r) == connection_member(self.connection, |c: NmSettingConnectionView| c.uuid),
    {
        match &self.connection {
            Some(c) => as_opt_str(&c.uuid),
            None => None,
        }
    }

    /// Names `parent` as the interface under each of the settings for
    /// VLAN, VXLAN, InfiniBand, MAC VLAN and MACsec that the profile has.
    pub fn set_parent(&mut self, parent: &str)
        ensures
            opt_parent(final(self).vlan) == with_parent(old(self).vlan, parent@),
            opt_parent(final(self).vxlan) == with_parent(old(self).vxlan, parent@),
            opt_parent(final(self).infiniband) == with_parent(old(self).infiniband, parent@),
            opt_parent(final(self).mac_vlan) == with_parent(old(self).mac_vlan, parent@),
            opt_parent(final(self).macsec) == with_parent(old(self).macsec, parent@),
            final(self).connection == old(self).connection,
            final(self).obj_path == old(self).obj_path,
            final(self).flags == old(self).flags,
    {
        set_parent_of(&mut self.vlan, parent);
        set_parent_of(&mut self.vxlan, parent);
        set_parent_of(&mut self.infiniband, parent);
        set_parent_of(&mut self.mac_vlan, parent);
        set_parent_of(&mut self.macsec, parent);
    }
}

} // verus!
