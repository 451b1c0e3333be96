use crate::ifaces::base::{BaseInterface, BaseInterfaceView, InterfaceType};
use crate::ifaces::inter_ifaces::{base_ifaces_view, Interfaces};
use crate::text::{str_eq, to_chars};
use vstd::prelude::*;

verus! {

/// The kind of the last of the first `upto` interfaces that holds ports
/// and is named `name`.
pub open spec fn controller_type_of(all: Seq<BaseInterfaceView>, name: Seq<char>, upto: int)
    -> Option<InterfaceType>
    decreases upto,
{
    if upto <= 0 || upto > all.len() {
        None
    } else if all[upto - 1].iface_type.spec_is_controller() && all[upto - 1].name == name {
        Some(all[upto - 1].iface_type)
    } else {
        controller_type_of(all, name, upto - 1)
    }
}

/// The interface with the kind of its controller filled in, where it
/// names a controller that is among `all`.
pub open spec fn with_controller_type(b: BaseInterfaceView, all: Seq<BaseInterfaceView>)
    -> BaseInterfaceView {
    match b.controller {
        Some(c) => match controller_type_of(all, c, all.len() as int) {
            Some(t) => BaseInterfaceView { controller_type: Some(t), ..b },
            None => b,
        },
        None => b,
    }
}

fn find_controller_type(
    kernel: &Vec<BaseInterface>,
    user: &Vec<BaseInterface>,
    name: &str,
) -> (r: Option<InterfaceType>)
    ensures
        r == controller_type_of(
            base_ifaces_view(kernel@) + base_ifaces_view(user@),
            name@,
            (kernel@.len() + user@.len()) as int,
        ),
{
    let ghost all = base_ifaces_view(kernel@) + base_ifaces_view(user@);
    assert(all.len() == kernel@.len() + user@.len());
    let mut i: usize = user.len();
    while i > 0
        invariant
            i <= user.len(),
            all == base_ifaces_view(kernel@) + base_ifaces_view(user@),
            controller_type_of(all, name@, all.len() as int) == controller_type_of(
                all,
                name@,
                kernel@.len() + i,
            ),
        decreases i,
    {
        i -= 1;
        assert(all[kernel@.len() + i] == user@[i as int]@);
        if user[i].is_controller() && str_eq(user[i].name(), name) {
            return Some(user[i].iface_type());
        }
    }
    let mut j: usize = kernel.len();
    while j > 0
        invariant
            j <= kernel.len(),
            all == base_ifaces_view(kernel@) + base_ifaces_view(user@),
            controller_type_of(all, name@, all.len() as int) == controller_type_of(
                all,
                name@,
                j as int,
            ),
        decreases j,
    {
        j -= 1;
        assert(all[j as int] == kernel@[j as int]@);
        if kernel[j].is_controller() && str_eq(kernel[j].name(), name) {
            return Some(kernel[j].iface_type());
        }
    }
    None
}

/// Fills in, on every interface of the kernel that names its controller,
/// the kind of that controller. Of several controllers of one name the
/// last counts, those outside the kernel after those inside.
pub fn set_controller_type(ifaces: &mut Interfaces)
    ensures
        final(ifaces).user_ifaces == old(ifaces).user_ifaces,
        final(ifaces).kernel_ifaces@.len() == old(ifaces).kernel_ifaces@.len(),
        forall|i: int|
            0 <= i < old(ifaces).kernel_ifaces@.len() ==> (#[trigger] final(ifaces).kernel_ifaces@[i])@
                == with_controller_type(
                old(ifaces).kernel_ifaces@[i]@,
                base_ifaces_view(old(ifaces).kernel_ifaces@) + base_ifaces_view(
                    old(ifaces).user_ifaces@,
                ),
            ),
{
    let ghost all = base_ifaces_view(ifaces.kernel_ifaces@) + base_ifaces_view(
        ifaces.user_ifaces@,
    );
    let ghost start = ifaces.kernel_ifaces@;
    let mut found: Vec<Option<InterfaceType>> = Vec::new();
    let mut i: usize = 0;
    while i < ifaces.kernel_ifaces.len()
        invariant
            i <= ifaces.kernel_ifaces.len(),
            ifaces.kernel_ifaces@ == start,
            all == base_ifaces_view(ifaces.kernel_ifaces@) + base_ifaces_view(ifaces.user_ifaces@),
            found@.len() == i,
            forall|j: int|
                0 <= j < i ==> #[trigger] found@[j] == match start[j]@.controller {
                    Some(c) => controller_type_of(all, c, all.len() as int),
                    None => None,
                },
        decreases ifaces.kernel_ifaces.len() - i,
    {
        let t = match &ifaces.kernel_ifaces[i].controller {
            Some(c) => find_controller_type(&ifaces.kernel_ifaces, &ifaces.user_ifaces, c.as_str()),
            None => None,
        };
        found.push(t);
        i += 1;
    }
    let mut k: usize = 0;
    while k < ifaces.kernel_ifaces.len()
        invariant
            k <= ifaces.kernel_ifaces.len(),
            ifaces.user_ifaces == old(ifaces).user_ifaces,
            ifaces.kernel_ifaces@.len() == start.len(),
            found@.len() == start.len(),
            forall|j: int|
                0 <= j < start.len() ==> #[trigger] found@[j] == match start[j]@.controller {
                    Some(c) => controller_type_of(all, c, all.len() as int),
                    None => None,
                },
            forall|j: int|
                0 <= j < k ==> (#[trigger] ifaces.kernel_ifaces@[j])@ == with_controller_type(
                    start[j]@,
                    all,
                ),
            forall|j: int| k <= j < start.len() ==> ifaces.kernel_ifaces@[j] == start[j],
        decreases ifaces.kernel_ifaces.len() - k,
    {
        match found[k] {
            Some(t) => {
                ifaces.kernel_ifaces[k].controller_type = Some(t);
            },
            None => {},
        }
        k += 1;
    }
}

/// Whether `s` begins with `prefix`.
pub open spec fn starts_with(s: Seq<char>, prefix: Seq<char>) -> bool {
    prefix.len() <= s.len() && s.take(prefix.len() as int) == prefix
}

/// Whether an interface that the kernel reports is left out of the
/// state: the two interfaces that Open vSwitch keeps for its datapaths,
/// the VTI interfaces of IPsec, and HFI interfaces of InfiniBand.
pub open spec fn is_left_out(name: Seq<char>, iface_type: InterfaceType, is_vti: bool) -> bool {
    name == "ovs-system"@ || name == "ovs-netdev"@ || is_vti || (iface_type
        == InterfaceType::InfiniBand && starts_with(name, "hfi1"@))
}

/// Whether an interface that the kernel reports is left out of the
/// state.
pub fn is_iface_left_out(name: &str, iface_type: InterfaceType, is_vti: bool) -> (r: bool)
    ensures
        r == is_left_out(name@, iface_type, is_vti),
{
    if str_eq(name, "ovs-system") || str_eq(name, "ovs-netdev") || is_vti {
        return true;
    }
    if iface_type != InterfaceType::InfiniBand {
        return false;
    }
    proof {
        reveal_strlit("hfi1");
    }
    let chars = to_chars(name);
    if chars.len() < 4 {
        return false;
    }
    let r = chars[0] == 'h' && chars[1] == 'f' && chars[2] == 'i' && chars[3] == '1';
    proof {
        let p = "hfi1"@;
        let t = name@.take(4);
        if r {
            assert(t =~= p);
        } else {
            assert(t[0] == name@[0] && t[1] == name@[1] && t[2] == name@[2] && t[3] == name@[3]);
        }
    }
    r
}

} // verus!
