use crate::error::{ErrorKind, NmstateError};
use crate::ifaces::base::{
    clone_opt_ipv4, clone_opt_ipv6, validate_wait_ip, BaseInterface, BaseInterfaceView,
};
use crate::ip::model::{merged_ip, IpStack};
use crate::ip::verify::stack_verified;
use vstd::prelude::*;

verus! {

/// The stack `d` merged with the running stack `c`, where both are there;
/// else `d` as it is.
pub open spec fn opt_merged_ip(d: Option<IpStack>, c: Option<IpStack>) -> Option<IpStack> {
    match (d, c) {
        (Some(d), Some(c)) => Some(merged_ip(d, c)),
        _ => d,
    }
}

/// The interface `b` with each of its stacks merged with that of the
/// running interface.
pub open spec fn base_merged_ip(b: BaseInterfaceView, current: BaseInterfaceView)
    -> BaseInterfaceView {
    BaseInterfaceView {
        ipv4: opt_merged_ip(b.ipv4, current.ipv4),
        ipv6: opt_merged_ip(b.ipv6, current.ipv6),
        ..b
    }
}

/// The interface `b` with the stacks that it leaves out taken from `from`.
pub open spec fn hoisted(b: BaseInterfaceView, from: BaseInterfaceView) -> BaseInterfaceView {
    BaseInterfaceView {
        ipv4: if b.ipv4 is None {
            from.ipv4
        } else {
            b.ipv4
        },
        ipv6: if b.ipv6 is None {
            from.ipv6
        } else {
            b.ipv6
        },
        ..b
    }
}

/// What the four views of one interface hold, and the merged view that
/// shows the interface as it will be.
pub struct MergedInterfaceView {
    pub desired: Option<BaseInterfaceView>,
    pub current: Option<BaseInterfaceView>,
    pub merged: BaseInterfaceView,
    pub for_apply: Option<BaseInterfaceView>,
    pub for_verify: Option<BaseInterfaceView>,
}

impl MergedInterfaceView {
    /// Whether the interface is handed to the backend.
    pub open spec fn is_changed(self) -> bool {
        self.for_apply is Some
    }

    /// The interface marked as changed: one that is not desired and has
    /// nothing to apply yet gets, to apply and to verify, an interface of
    /// its name and kind that states nothing else.
    pub open spec fn marked_as_changed(self) -> Self {
        if self.desired is None && self.current is Some {
            MergedInterfaceView {
                for_apply: Some(self.current->0.name_type_only()),
                for_verify: Some(self.current->0.name_type_only()),
                ..self
            }
        } else {
            self
        }
    }

    /// The interface after its stacks to apply and to verify were merged
    /// with the running ones, and whether it passes: it fails where it
    /// then waits for a stack that is off. An interface that cannot hold
    /// IP configuration waits for none.
    pub open spec fn ip_processed(self) -> (Self, bool) {
        if self.current is Some && self.for_apply is Some && self.for_verify is Some {
            let a = base_merged_ip(self.for_apply->0, self.current->0);
            let v = base_merged_ip(self.for_verify->0, self.current->0);
            if a.wait_ip_conflict() {
                (MergedInterfaceView { for_apply: Some(a), for_verify: Some(v), ..self }, false)
            } else if !a.can_have_ip() {
                (
                    MergedInterfaceView {
                        for_apply: Some(BaseInterfaceView { wait_ip: None, ..a }),
                        for_verify: Some(BaseInterfaceView { wait_ip: None, ..v }),
                        ..self
                    },
                    true,
                )
            } else {
                (MergedInterfaceView { for_apply: Some(a), for_verify: Some(v), ..self }, true)
            }
        } else {
            (self, true)
        }
    }

    /// The views of an interface at the start: what is applied and what
    /// is verified is the desired interface, or the running one where none
    /// is desired; the merged view is the same, its stacks merged with the
    /// running ones, and the stacks that it leaves out taken from them.
    pub open spec fn initial(desired: Option<BaseInterfaceView>, current: BaseInterfaceView)
        -> Self {
        let base = match desired {
            Some(d) => d,
            None => current,
        };
        MergedInterfaceView {
            desired,
            current: Some(current),
            merged: hoisted(base_merged_ip(base, current), current),
            for_apply: Some(base),
            for_verify: Some(base),
        }
    }

    /// The views of an interface that is desired and not running.
    pub open spec fn initial_new(desired: BaseInterfaceView) -> Self {
        MergedInterfaceView {
            desired: Some(desired),
            current: None,
            merged: desired,
            for_apply: Some(desired),
            for_verify: Some(desired),
        }
    }
}

/// One interface in its four views: as desired, as running, as handed to
/// the backend, and as the running state is held to after applying.
#[derive(Debug)]
pub struct MergedInterface {
    pub desired: Option<BaseInterface>,
    pub current: Option<BaseInterface>,
    /// The interface as it will be: the desired one completed from the
    /// running one.
    pub merged: BaseInterface,
    pub for_apply: Option<BaseInterface>,
    pub for_verify: Option<BaseInterface>,
}

/// What an optional interface holds.
pub open spec fn opt_base(o: Option<BaseInterface>) -> Option<BaseInterfaceView> {
    match o {
        Some(b) => Some(b@),
        None => None,
    }
}

impl View for MergedInterface {
    type V = MergedInterfaceView;

    open spec fn view(&self) -> MergedInterfaceView {
        MergedInterfaceView {
            desired: opt_base(self.desired),
            current: opt_base(self.current),
            merged: self.merged@,
            for_apply: opt_base(self.for_apply),
            for_verify: opt_base(self.for_verify),
        }
    }
}

fn merge_base_ip(b: &mut BaseInterface, current: &BaseInterface)
    ensures
        final(b)@ == base_merged_ip(old(b)@, current@),
{
    match (b.ipv4.as_mut(), &current.ipv4) {
        (Some(d), Some(c)) => {
            d.merge_ip(c);
        },
        _ => {},
    }
    match (b.ipv6.as_mut(), &current.ipv6) {
        (Some(d), Some(c)) => {
            d.merge_ip(c);
        },
        _ => {},
    }
}

fn hoist(b: &mut BaseInterface, from: &BaseInterface)
    ensures
        final(b)@ == hoisted(old(b)@, from@),
{
    if b.ipv4.is_none() {
        b.ipv4 = clone_opt_ipv4(&from.ipv4);
    }
    if b.ipv6.is_none() {
        b.ipv6 = clone_opt_ipv6(&from.ipv6);
    }
}

impl MergedInterface {
    /// The views of an interface from what is desired of it and how it
    /// runs; one of the two must be there.
    pub fn new(desired: Option<BaseInterface>, current: Option<BaseInterface>) -> (r: Result<
        Self,
        NmstateError,
    >)
        ensures
            match (opt_base(desired), opt_base(current)) {
                (None, None) => r is Err && r->Err_0.kind() == ErrorKind::Bug,
                (Some(d), None) => r is Ok && r->Ok_0@ == MergedInterfaceView::initial_new(d),
                (d, Some(c)) => {
                    let outcome = MergedInterfaceView::initial(d, c).ip_processed();
                    if outcome.1 {
                        r is Ok && r->Ok_0@ == outcome.0
                    } else {
                        r is Err && r->Err_0.kind() == ErrorKind::InvalidArgument
                    }
                },
            },
    {
        match current {
            None => match desired {
                None => Err(
                    NmstateError::with_text(
                        ErrorKind::Bug,
                        "Neither a desired nor a current interface is given",
                    ),
                ),
                Some(d) => {
                    let merged = d.clone();
                    let for_apply = d.clone();
                    let for_verify = d.clone();
                    Ok(
                        MergedInterface {
                            desired: Some(d),
                            current: None,
                            merged,
                            for_apply: Some(for_apply),
                            for_verify: Some(for_verify),
                        },
                    )
                },
            },
            Some(c) => {
                let base = match &desired {
                    Some(d) => d.clone(),
                    None => c.clone(),
                };
                let mut merged = base.clone();
                merge_base_ip(&mut merged, &c);
                hoist(&mut merged, &c);
                let for_verify = base.clone();
                let mut ret = MergedInterface {
                    desired,
                    current: Some(c),
                    merged,
                    for_apply: Some(base),
                    for_verify: Some(for_verify),
                };
                match ret.post_inter_ifaces_process_ip() {
                    Ok(()) => Ok(ret),
                    Err(e) => Err(e),
                }
            },
        }
    }

    /// Whether the interface is handed to the backend.
    pub fn is_changed(&self) -> (r: bool)
        ensures
            r == self@.is_changed(),
    {
        self.for_apply.is_some()
    }

    /// Whether something is desired of the interface.
    pub fn is_desired(&self) -> (r: bool)
        ensures
            r == (self@.desired is Some),
    {
        self.desired.is_some()
    }

    /// Has the interface handed to the backend though nothing is desired
    /// of it.
    pub fn mark_as_changed(&mut self)
        ensures
            final(self)@ == old(self)@.marked_as_changed(),
    {
        if self.desired.is_none() {
            match &self.current {
                Some(cur) => {
                    let iface = cur.clone_name_type_only();
                    self.for_apply = Some(iface.clone());
                    self.for_verify = Some(iface);
                },
                None => {},
            }
        }
    }

    /// Merges the stacks to apply and to verify with the running ones,
    /// and checks what the interface waits for.
    pub fn post_inter_ifaces_process_ip(&mut self) -> (r: Result<(), NmstateError>)
        ensures
            final(self)@ == old(self)@.ip_processed().0,
            r is Ok <==> old(self)@.ip_processed().1,
            r is Err ==> r->Err_0.kind() == ErrorKind::InvalidArgument,
    {
        match (&self.current, self.for_apply.as_mut(), self.for_verify.as_mut()) {
            (Some(current), Some(apply_iface), Some(verify_iface)) => {
                merge_base_ip(apply_iface, current);
                merge_base_ip(verify_iface, current);
                validate_wait_ip(apply_iface)?;
                if !apply_iface.can_have_ip() {
                    apply_iface.wait_ip = None;
                    verify_iface.wait_ip = None;
                }
                Ok(())
            },
            _ => Ok(()),
        }
    }
}

/// Whether the stack found satisfies the stack wanted, where one is
/// wanted.
pub open spec fn opt_stack_verified(want: Option<IpStack>, have: Option<IpStack>) -> bool {
    want is Some ==> have is Some && stack_verified(want->0, have->0)
}

/// Whether the interface found satisfies the interface wanted in both of
/// its IP stacks.
pub open spec fn base_verified(want: BaseInterfaceView, have: BaseInterfaceView) -> bool {
    opt_stack_verified(want.ipv4, have.ipv4) && opt_stack_verified(want.ipv6, have.ipv6)
}

impl MergedInterface {
    /// Holds the interface found after applying to what is kept to
    /// verify.
    pub fn verify(&self, current: &BaseInterface) -> (r: Result<(), NmstateError>)
        ensures
            r is Ok <==> (self@.for_verify is Some ==> base_verified(
                self@.for_verify->0,
                current@,
            )),
            r is Err ==> r->Err_0.kind() == ErrorKind::VerificationError,
    {
        match &self.for_verify {
            None => Ok(()),
            Some(v) => {
                match &v.ipv4 {
                    Some(w) => match &current.ipv4 {
                        Some(h) => {
                            w.verify(h)?;
                        },
                        None => {
                            return Err(
                                NmstateError::with_text(
                                    ErrorKind::VerificationError,
                                    "Verification failure: the interface has no IPv4 stack",
                                ),
                            );
                        },
                    },
                    None => {},
                }
                match &v.ipv6 {
                    Some(w) => match &current.ipv6 {
                        Some(h) => {
                            w.verify(h)?;
                        },
                        None => {
                            return Err(
                                NmstateError::with_text(
                                    ErrorKind::VerificationError,
                                    "Verification failure: the interface has no IPv6 stack",
                                ),
                            );
                        },
                    },
                    None => {},
                }
                Ok(())
            },
        }
    }
}

} // verus!
