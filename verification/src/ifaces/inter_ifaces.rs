use crate::ifaces::base::{BaseInterface, BaseInterfaceView, InterfaceType};
use crate::ifaces::merged::{MergedInterface, MergedInterfaceView};
use crate::text::str_eq;
use vstd::prelude::*;

verus! {

/// What a set of merged interfaces holds.
pub struct MergedInterfacesView {
    pub kernel_ifaces: Seq<MergedInterfaceView>,
    pub insert_order: Seq<(Seq<char>, InterfaceType)>,
}

/// The position of the first interface named `name` at or after `from`,
/// or the length of the list where there is none.
pub open spec fn index_of_iface(ifaces: Seq<MergedInterfaceView>, name: Seq<char>, from: int)
    -> int
    decreases ifaces.len() - from,
{
    if from < 0 || from >= ifaces.len() {
        ifaces.len() as int
    } else if ifaces[from].merged.name == name {
        from
    } else {
        index_of_iface(ifaces, name, from + 1)
    }
}

/// The position found lies within the list or at its end; an interface
/// at it has the name, and none before it has.
pub proof fn lemma_index_of_iface(ifaces: Seq<MergedInterfaceView>, name: Seq<char>, from: int)
    requires
        0 <= from <= ifaces.len(),
    ensures
        from <= index_of_iface(ifaces, name, from) <= ifaces.len(),
        index_of_iface(ifaces, name, from) < ifaces.len() ==> ifaces[index_of_iface(
            ifaces,
            name,
            from,
        )].merged.name == name,
        forall|j: int| from <= j < index_of_iface(ifaces, name, from) ==> ifaces[j].merged.name != name,
    decreases ifaces.len() - from,
{
    if from < ifaces.len() && ifaces[from].merged.name != name {
        lemma_index_of_iface(ifaces, name, from + 1);
    }
}

impl MergedInterfacesView {
    /// The interface of the kernel that is named `name`, if there is one.
    pub open spec fn get(self, name: Seq<char>) -> Option<MergedInterfaceView> {
        let i = index_of_iface(self.kernel_ifaces, name, 0);
        if i < self.kernel_ifaces.len() {
            Some(self.kernel_ifaces[i])
        } else {
            None
        }
    }

    /// The names of the interfaces, in their order.
    pub open spec fn names(self) -> Seq<Seq<char>> {
        self.kernel_ifaces.map_values(|m: MergedInterfaceView| m.merged.name)
    }

    /// No two interfaces have one name.
    pub open spec fn wf(self) -> bool {
        forall|i: int, j: int|
            0 <= i < j < self.kernel_ifaces.len() ==> self.kernel_ifaces[i].merged.name
                != self.kernel_ifaces[j].merged.name
    }
}

/// The merged interfaces of the kernel, found by their names, and the
/// order in which the user listed interfaces.
#[derive(Debug)]
pub struct MergedInterfaces {
    pub kernel_ifaces: Vec<MergedInterface>,
    pub insert_order: Vec<(String, InterfaceType)>,
}

/// What a list of merged interfaces holds.
pub open spec fn merged_ifaces_view(v: Seq<MergedInterface>) -> Seq<MergedInterfaceView> {
    v.map_values(|m: MergedInterface| m@)
}

/// What the order of insertion holds.
pub open spec fn insert_order_view(v: Seq<(String, InterfaceType)>) -> Seq<
    (Seq<char>, InterfaceType),
> {
    v.map_values(|e: (String, InterfaceType)| (e.0@, e.1))
}

impl View for MergedInterfaces {
    type V = MergedInterfacesView;

    open spec fn view(&self) -> MergedInterfacesView {
        MergedInterfacesView {
            kernel_ifaces: merged_ifaces_view(self.kernel_ifaces@),
            insert_order: insert_order_view(self.insert_order@),
        }
    }
}

impl MergedInterfaces {
    /// A set without interfaces.
    pub fn new() -> (r: Self)
        ensures
            r@.kernel_ifaces.len() == 0,
            r@.insert_order.len() == 0,
            r@.wf(),
    {
        let r = MergedInterfaces { kernel_ifaces: Vec::new(), insert_order: Vec::new() };
        assert(r@.kernel_ifaces =~= Seq::empty());
        assert(r@.insert_order =~= Seq::empty());
        r
    }

    /// Where the interface named `name` stands.
    pub fn find(&self, name: &str) -> (r: Option<usize>)
        ensures
            match r {
                Some(i) => i < self@.kernel_ifaces.len() && i == index_of_iface(
                    self@.kernel_ifaces,
                    name@,
                    0,
                ) && self@.get(name@) == Some(self@.kernel_ifaces[i as int]),
                None => self@.get(name@) is None,
            },
    {
        let mut i: usize = 0;
        while i < self.kernel_ifaces.len()
            invariant
                i <= self.kernel_ifaces.len(),
                index_of_iface(self@.kernel_ifaces, name@, 0) == index_of_iface(
                    self@.kernel_ifaces,
                    name@,
                    i as int,
                ),
            decreases self.kernel_ifaces.len() - i,
        {
            if str_eq(self.kernel_ifaces[i].merged.name(), name) {
                return Some(i);
            }
            i += 1;
        }
        None
    }

    /// Adds an interface at the end, unless one of its name is there. The
    /// name and kind of an interface that is desired are noted in the
    /// order of insertion.
    pub fn push(&mut self, iface: MergedInterface) -> (r: bool)
        requires
            old(self)@.wf(),
        ensures
            final(self)@.wf(),
            r == (old(self)@.get(iface@.merged.name) is None),
            r ==> final(self)@.kernel_ifaces == old(self)@.kernel_ifaces.push(iface@),
            r ==> final(self)@.insert_order == if iface@.desired is Some {
                old(self)@.insert_order.push((iface@.merged.name, iface@.merged.iface_type))
            } else {
                old(self)@.insert_order
            },
            !r ==> final(self)@ == old(self)@,
    {
        if self.find(iface.merged.name()).is_some() {
            return false;
        }
        proof {
            lemma_index_of_iface(self@.kernel_ifaces, iface@.merged.name, 0);
        }
        let ghost before = self@;
        if iface.is_desired() {
            let entry = (iface.merged.name.clone(), iface.merged.iface_type);
            self.insert_order.push(entry);
            assert(self@.insert_order =~= before.insert_order.push(
                (iface@.merged.name, iface@.merged.iface_type),
            ));
        }
        self.kernel_ifaces.push(iface);
        assert(self@.kernel_ifaces =~= before.kernel_ifaces.push(iface@));
        true
    }
}

/// Interfaces as they are reported or desired: those of the kernel, and
/// those that live outside it.
#[derive(Debug)]
pub struct Interfaces {
    pub kernel_ifaces: Vec<BaseInterface>,
    pub user_ifaces: Vec<BaseInterface>,
}

/// What a list of interfaces holds.
pub open spec fn base_ifaces_view(v: Seq<BaseInterface>) -> Seq<BaseInterfaceView> {
    v.map_values(|b: BaseInterface| b@)
}

} // verus!
