//! Identifiers of queue families and queues, tagged with their capability.

use vstd::prelude::*;
use crate::capability::{Capability, Compute, General, Graphics, Transfer};

verus! {

/// Queue family index together with its capability (a runtime `Capability`
/// by default, or a static marker after conversion).
#[derive(Copy, Clone, Debug)]
pub struct FamilyId<C = Capability> {
    pub index: u32,
    pub capability: C,
}

impl<C> FamilyId<C> {
    pub fn new(index: u32, capability: C) -> (r: Self)
        ensures
            r.index == index,
            r.capability == capability,
    {
        FamilyId { index, capability }
    }
}

impl FamilyId<Capability> {
    /// Fetch capability of the family.
    pub fn capability(&self) -> (r: Capability)
        ensures
            r == self.capability,
    {
        self.capability
    }

    pub fn transfer(self) -> (r: FamilyId<Transfer>)
        requires
            self.capability.spec_supports(Capability::Transfer),
        ensures
            r.index == self.index,
    {
        FamilyId { index: self.index, capability: self.capability.transfer() }
    }

    pub fn graphics(self) -> (r: FamilyId<Graphics>)
        requires
            self.capability.spec_supports(Capability::Graphics),
        ensures
            r.index == self.index,
    {
        FamilyId { index: self.index, capability: self.capability.graphics() }
    }

    pub fn compute(self) -> (r: FamilyId<Compute>)
        requires
            self.capability.spec_supports(Capability::Compute),
        ensures
            r.index == self.index,
    {
        FamilyId { index: self.index, capability: self.capability.compute() }
    }

    pub fn general(self) -> (r: FamilyId<General>)
        requires
            self.capability.spec_supports(Capability::General),
        ensures
            r.index == self.index,
    {
        FamilyId { index: self.index, capability: self.capability.general() }
    }
}

/// Families compare by index alone.
impl<C> PartialEq for FamilyId<C> {
    fn eq(&self, rhs: &Self) -> (r: bool) {
        self.index == rhs.index
    }
}

impl<C> vstd::std_specs::cmp::PartialEqSpecImpl for FamilyId<C> {
    open spec fn obeys_eq_spec() -> bool {
        true
    }

    open spec fn eq_spec(&self, other: &Self) -> bool {
        self.index == other.index
    }
}

impl<C> Eq for FamilyId<C> {}

/// Queue index within a family.
#[derive(Copy, Clone, Debug)]
pub struct QueueId<C = Capability> {
    pub index: u32,
    pub family: FamilyId<C>,
}

impl<C> QueueId<C> {
    pub fn new(index: u32, family: FamilyId<C>) -> (r: Self)
        ensures
            r.index == index,
            r.family == family,
    {
        QueueId { index, family }
    }

    /// Spec-level equality of queue ids as `==` computes it.
    pub open spec fn same_queue(self, other: Self) -> bool {
        self.index == other.index && self.family.index == other.family.index
    }
}

impl QueueId<Capability> {
    /// Fetch capability of the queue.
    pub fn capability(&self) -> (r: Capability)
        ensures
            r == self.family.capability,
    {
        self.family.capability()
    }

    pub fn transfer(self) -> (r: QueueId<Transfer>)
        requires
            self.family.capability.spec_supports(Capability::Transfer),
        ensures
            r.index == self.index,
            r.family.index == self.family.index,
    {
        QueueId { index: self.index, family: self.family.transfer() }
    }

    pub fn graphics(self) -> (r: QueueId<Graphics>)
        requires
            self.family.capability.spec_supports(Capability::Graphics),
        ensures
            r.index == self.index,
            r.family.index == self.family.index,
    {
        QueueId { index: self.index, family: self.family.graphics() }
    }

    pub fn compute(self) -> (r: QueueId<Compute>)
        requires
            self.family.capability.spec_supports(Capability::Compute),
        ensures
            r.index == self.index,
            r.family.index == self.family.index,
    {
        QueueId { index: self.index, family: self.family.compute() }
    }

    pub fn general(self) -> (r: QueueId<General>)
        requires
            self.family.capability.spec_supports(Capability::General),
        ensures
            r.index == self.index,
            r.family.index == self.family.index,
    {
        QueueId { index: self.index, family: self.family.general() }
    }
}

/// Queues compare by queue index and family index.
impl<C> PartialEq for QueueId<C> {
    fn eq(&self, rhs: &Self) -> (r: bool) {
        self.index == rhs.index && self.family.index == rhs.family.index
    }
}

impl<C> vstd::std_specs::cmp::PartialEqSpecImpl for QueueId<C> {
    open spec fn obeys_eq_spec() -> bool {
        true
    }

    open spec fn eq_spec(&self, other: &Self) -> bool {
        self.index == other.index && self.family.index == other.family.index
    }
}

impl<C> Eq for QueueId<C> {}

} // verus!
