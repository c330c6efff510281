//! The logical device: which queue families are asked for and how queues
//! are assigned to the renderer's queue types, which device extensions are
//! needed, and the lifetime bookkeeping of the device's resource tracker.

use vstd::prelude::*;
use crate::vulkan;
use crate::capability::Capability;
use crate::command::FamilyId;
use crate::command::QueueId;
use crate::errors::OomError;

verus! {

/// Properties of a command queue family.
#[derive(Clone, Copy, Debug, PartialEq, Eq, Structural)]
pub struct QueueFamilyProperties {
    pub index: u32,
    pub capability: Capability,
    pub queue_count: u32,
}

/// Request for creating command queues of one family.
#[derive(Clone, Copy, Debug, PartialEq, Eq, Structural)]
pub struct CreateQueueFamily {
    pub family: u32,
    pub count: u32,
}

impl Default for CreateQueueFamily {
    fn default() -> (r: Self)
        ensures
            r.family == 0,
            r.count == 0,
    {
        CreateQueueFamily { family: 0, count: 0 }
    }
}

/// Families of a physical device from their queue flags and queue counts:
/// numbered in order, with the capability the flags give.
pub fn family_properties(families: &Vec<(u32, u32)>) -> (r: Vec<QueueFamilyProperties>)
    requires
        families@.len() <= u32::MAX,
        forall|i: int| 0 <= i < families@.len() ==>
            (#[trigger] families@[i]).0 & (vulkan::QUEUE_COMPUTE | vulkan::QUEUE_GRAPHICS | vulkan::QUEUE_TRANSFER) != 0,
    ensures
        r@ == Seq::new(families@.len(), |i: int| QueueFamilyProperties {
            index: i as u32,
            capability: Capability::spec_from_queue_flags(families@[i].0),
            queue_count: families@[i].1,
        }),
{
    let mut r: Vec<QueueFamilyProperties> = Vec::new();
    let mut i: usize = 0;
    while i < families.len()
        invariant
            i <= families@.len(),
            families@.len() <= u32::MAX,
            forall|k: int| 0 <= k < families@.len() ==>
                (#[trigger] families@[k]).0 & (vulkan::QUEUE_COMPUTE | vulkan::QUEUE_GRAPHICS | vulkan::QUEUE_TRANSFER) != 0,
            r@ == Seq::new(i as nat, |k: int| QueueFamilyProperties {
                index: k as u32,
                capability: Capability::spec_from_queue_flags(families@[k].0),
                queue_count: families@[k].1,
            }),
        decreases families@.len() - i,
    {
        let (flags, count) = families[i];
        r.push(QueueFamilyProperties { index: i as u32, capability: Capability::from_queue_flags(flags), queue_count: count });
        i += 1;
        assert(r@ =~= Seq::new(i as nat, |k: int| QueueFamilyProperties {
            index: k as u32,
            capability: Capability::spec_from_queue_flags(families@[k].0),
            queue_count: families@[k].1,
        }));
    }
    r
}

/// Which capability a queue type asks of a family: the universal queue a
/// graphics or general family, the others exactly their own.
pub open spec fn wanted(which: RenderQueueType, c: Capability) -> bool {
    match which {
        RenderQueueType::Universal => c == Capability::Graphics || c == Capability::General,
        RenderQueueType::Compute => c == Capability::Compute,
        RenderQueueType::Transfer => c == Capability::Transfer,
    }
}

/// Queue types of the renderer.
#[derive(Clone, Copy, Debug, PartialEq, Eq, Structural)]
pub enum RenderQueueType {
    Universal,
    Compute,
    Transfer,
}

/// `i` is the first family of the kind a queue type wants.
pub open spec fn is_first_wanted(families: Seq<QueueFamilyProperties>, which: RenderQueueType, i: int) -> bool {
    &&& 0 <= i < families.len()
    &&& wanted(which, families[i].capability)
    &&& forall|j: int| 0 <= j < i ==> !wanted(which, families[j].capability)
}

/// The family a queue type gets a single queue from: the first one of the
/// kind it wants.
pub open spec fn spec_find_family(families: Seq<QueueFamilyProperties>, which: RenderQueueType) -> Option<CreateQueueFamily> {
    if exists|i: int| is_first_wanted(families, which, i) {
        let i = choose|i: int| is_first_wanted(families, which, i);
        Some(CreateQueueFamily { family: families[i].index, count: 1 })
    } else {
        None
    }
}

/// `i` is the first family whose capability is `c`.
pub open spec fn first_with(families: Seq<QueueFamilyProperties>, c: Capability, i: int) -> bool {
    &&& 0 <= i < families.len()
    &&& families[i].capability == c
    &&& forall|j: int| 0 <= j < i ==> families[j].capability != c
}

/// `r` requests one queue of the first family whose capability is `c`, or
/// nothing when no family has that capability.
pub open spec fn requests_first_with(families: Seq<QueueFamilyProperties>, c: Capability, r: Option<CreateQueueFamily>) -> bool {
    &&& r matches Some(q) ==> q.count == 1 && exists|i: int| first_with(families, c, i) && families[i].index == q.family
    &&& r is None <==> forall|i: int| 0 <= i < families.len() ==> families[i].capability != c
}

/// Which family each queue type is given: the compute queue the first
/// family that is exactly a compute family, the transfer queue the first
/// one that is exactly a transfer family (never a compute or general
/// family), and the universal queue the first family that is a graphics or
/// a general family, one queue each; none when there is no such family.
pub proof fn lemma_find_family_capability(families: Seq<QueueFamilyProperties>, which: RenderQueueType)
    ensures
        which == RenderQueueType::Transfer ==> requests_first_with(families, Capability::Transfer, spec_find_family(families, which)),
        which == RenderQueueType::Compute ==> requests_first_with(families, Capability::Compute, spec_find_family(families, which)),
        which == RenderQueueType::Universal ==> {
            let r = spec_find_family(families, which);
            &&& r matches Some(q) ==> q.count == 1 && exists|i: int| {
                &&& 0 <= i < families.len()
                &&& families[i].index == q.family
                &&& (families[i].capability == Capability::Graphics || families[i].capability == Capability::General)
                &&& forall|j: int| 0 <= j < i ==> families[j].capability != Capability::Graphics
                    && families[j].capability != Capability::General
            }
            &&& r is None <==> forall|i: int| 0 <= i < families.len()
                ==> families[i].capability != Capability::Graphics && families[i].capability != Capability::General
        },
{
    if exists|i: int| is_first_wanted(families, which, i) {
        let i = choose|i: int| is_first_wanted(families, which, i);
        assert(which == RenderQueueType::Transfer ==> first_with(families, Capability::Transfer, i));
        assert(which == RenderQueueType::Compute ==> first_with(families, Capability::Compute, i));
    } else {
        assert forall|i: int| 0 <= i < families.len() implies !wanted(which, families[i].capability) by {
            if wanted(which, families[i].capability) {
                lemma_first_wanted_exists(families, which, i);
            }
        }
    }
}

/// A family of the wanted kind means there is a first one.
proof fn lemma_first_wanted_exists(families: Seq<QueueFamilyProperties>, which: RenderQueueType, i: int)
    requires
        0 <= i < families.len(),
        wanted(which, families[i].capability),
    ensures
        exists|k: int| is_first_wanted(families, which, k),
    decreases i,
{
    if forall|j: int| 0 <= j < i ==> !wanted(which, families[j].capability) {
        assert(is_first_wanted(families, which, i));
    } else {
        let j = choose|j: int| 0 <= j < i && wanted(which, families[j].capability);
        lemma_first_wanted_exists(families, which, j);
    }
}

/// Request one queue of the first family that the queue type wants.
pub fn find_family(families: &Vec<QueueFamilyProperties>, which: RenderQueueType) -> (r: Option<CreateQueueFamily>)
    ensures
        r == spec_find_family(families@, which),
        which == RenderQueueType::Transfer ==> requests_first_with(families@, Capability::Transfer, r),
        which == RenderQueueType::Compute ==> requests_first_with(families@, Capability::Compute, r),
        which == RenderQueueType::Universal ==> (r matches Some(q) ==> exists|i: int| {
            &&& 0 <= i < families@.len()
            &&& families@[i].index == q.family
            &&& (families@[i].capability == Capability::Graphics || families@[i].capability == Capability::General)
            &&& forall|j: int| 0 <= j < i ==> families@[j].capability != Capability::Graphics
                && families@[j].capability != Capability::General
        }),
        which == RenderQueueType::Universal ==> (r is None <==> forall|i: int| 0 <= i < families@.len()
            ==> families@[i].capability != Capability::Graphics && families@[i].capability != Capability::General),
{
    proof {
        lemma_find_family_capability(families@, which);
    }
    let mut i: usize = 0;
    while i < families.len()
        invariant
            i <= families@.len(),
            forall|j: int| 0 <= j < i ==> !wanted(which, families@[j].capability),
        decreases families@.len() - i,
    {
        let c = families[i].capability;
        let hit = match which {
            RenderQueueType::Universal => c == Capability::Graphics || c == Capability::General,
            RenderQueueType::Compute => c == Capability::Compute,
            RenderQueueType::Transfer => c == Capability::Transfer,
        };
        if hit {
            proof {
                assert(is_first_wanted(families@, which, i as int));
                let k = choose|k: int| is_first_wanted(families@, which, k);
                if k < i {
                } else if k > i {
                    assert(!wanted(which, families@[i as int].capability));
                }
                lemma_find_family_capability(families@, which);
            }
            return Some(CreateQueueFamily { family: families[i].index, count: 1 });
        }
        i += 1;
    }
    None
}

/// The queue families a device is created with, and the request filed for
/// each queue type (universal, compute, transfer; a default request where
/// the device has no family for the type).
pub struct QueueFamilySelection {
    pub families: Vec<CreateQueueFamily>,
    pub queue_info: Vec<CreateQueueFamily>,
}

pub open spec fn request_or_default(r: Option<CreateQueueFamily>) -> CreateQueueFamily {
    match r {
        Some(q) => q,
        None => CreateQueueFamily { family: 0, count: 0 },
    }
}

/// Pick the families of a device: a universal family is required; compute
/// and transfer families are taken where the device has them.
pub fn select_queue_families(families: &Vec<QueueFamilyProperties>) -> (r: QueueFamilySelection)
    requires
        spec_find_family(families@, RenderQueueType::Universal) is Some,
    ensures
        ({
            let g = spec_find_family(families@, RenderQueueType::Universal)->0;
            let c = spec_find_family(families@, RenderQueueType::Compute);
            let t = spec_find_family(families@, RenderQueueType::Transfer);
            &&& r.families@ == seq![g] + (if c is Some { seq![c->0] } else { Seq::empty() })
                + (if t is Some { seq![t->0] } else { Seq::empty() })
            &&& r.queue_info@ == seq![g, request_or_default(c), request_or_default(t)]
        }),
{
    let graphics = find_family(families, RenderQueueType::Universal);
    let compute = find_family(families, RenderQueueType::Compute);
    let transfer = find_family(families, RenderQueueType::Transfer);
    let g = match graphics {
        Some(g) => g,
        None => CreateQueueFamily { family: 0, count: 0 },
    };
    let mut list: Vec<CreateQueueFamily> = Vec::new();
    list.push(g);
    match compute {
        Some(c) => list.push(c),
        None => {},
    }
    match transfer {
        Some(t) => list.push(t),
        None => {},
    }
    let mut queue_info: Vec<CreateQueueFamily> = Vec::new();
    queue_info.push(g);
    queue_info.push(match compute { Some(c) => c, None => CreateQueueFamily { family: 0, count: 0 } });
    queue_info.push(match transfer { Some(t) => t, None => CreateQueueFamily { family: 0, count: 0 } });
    proof {
        let c = spec_find_family(families@, RenderQueueType::Compute);
        let t = spec_find_family(families@, RenderQueueType::Transfer);
        assert(list@ =~= seq![g] + (if c is Some { seq![c->0] } else { Seq::empty() })
            + (if t is Some { seq![t->0] } else { Seq::empty() }));
        assert(queue_info@ =~= seq![g, request_or_default(c), request_or_default(t)]);
    }
    QueueFamilySelection { families: list, queue_info }
}

/// The largest queue count requested of any family, 0 without families.
pub open spec fn spec_max_queues(families: Seq<CreateQueueFamily>) -> u32
    decreases families.len(),
{
    if families.len() == 0 {
        0
    } else {
        let rest = spec_max_queues(families.drop_last());
        if families.last().count > rest { families.last().count } else { rest }
    }
}

/// Number of queue priorities a device creation needs.
pub fn max_queues(families: &Vec<CreateQueueFamily>) -> (r: u32)
    ensures
        r == spec_max_queues(families@),
        forall|i: int| 0 <= i < families@.len() ==> families@[i].count <= r,
{
    let mut m: u32 = 0;
    let mut i: usize = 0;
    while i < families.len()
        invariant
            i <= families@.len(),
            m == spec_max_queues(families@.take(i as int)),
            forall|k: int| 0 <= k < i ==> families@[k].count <= m,
        decreases families@.len() - i,
    {
        proof {
            assert(families@.take(i + 1).drop_last() =~= families@.take(i as int));
        }
        if families[i].count > m {
            m = families[i].count;
        }
        i += 1;
    }
    assert(families@.take(i as int) =~= families@);
    m
}

/// The family ids of the requested families: each takes the capability of
/// the physical device's family of that index.
pub fn family_ids(requests: &Vec<CreateQueueFamily>, families: &Vec<QueueFamilyProperties>) -> (r: Vec<FamilyId<Capability>>)
    requires
        forall|i: int| 0 <= i < requests@.len() ==> (#[trigger] requests@[i]).family < families@.len(),
    ensures
        r@.len() == requests@.len(),
        forall|i: int| 0 <= i < requests@.len() ==> (#[trigger] r@[i]).index == requests@[i].family
            && r@[i].capability == families@[requests@[i].family as int].capability,
{
    let mut r: Vec<FamilyId<Capability>> = Vec::new();
    let mut i: usize = 0;
    while i < requests.len()
        invariant
            i <= requests@.len(),
            forall|k: int| 0 <= k < requests@.len() ==> (#[trigger] requests@[k]).family < families@.len(),
            r@.len() == i,
            forall|k: int| 0 <= k < i ==> (#[trigger] r@[k]).index == requests@[k].family
                && r@[k].capability == families@[requests@[k].family as int].capability,
        decreases requests@.len() - i,
    {
        let family = requests[i].family;
        r.push(FamilyId::new(family, families[family as usize].capability));
        i += 1;
    }
    r
}

/// The ids of the first `count` queues of a family, numbered from 0.
pub fn family_queue_ids(id: FamilyId<Capability>, count: u32) -> (r: Vec<QueueId<Capability>>)
    ensures
        r@.len() == count,
        forall|i: int| 0 <= i < count ==> (#[trigger] r@[i]).index == i && r@[i].family.index == id.index
            && r@[i].family.capability == id.capability,
{
    let mut r: Vec<QueueId<Capability>> = Vec::new();
    let mut q: u32 = 0;
    while q < count
        invariant
            q <= count,
            r@.len() == q,
            forall|i: int| 0 <= i < q ==> (#[trigger] r@[i]).index == i && r@[i].family.index == id.index
                && r@[i].family.capability == id.capability,
        decreases count - q,
    {
        r.push(QueueId::new(q, id));
        q += 1;
    }
    r
}

/// The queue type a queue of a family with this capability serves.
pub open spec fn spec_queue_type_of(c: Capability) -> RenderQueueType {
    match c {
        Capability::Graphics | Capability::General => RenderQueueType::Universal,
        Capability::Compute => RenderQueueType::Compute,
        Capability::Transfer => RenderQueueType::Transfer,
    }
}

pub open spec fn queue_type_index(t: RenderQueueType) -> int {
    match t {
        RenderQueueType::Universal => 0,
        RenderQueueType::Compute => 1,
        RenderQueueType::Transfer => 2,
    }
}

/// The queue filed for a queue type: the last of the queues that serves it.
pub open spec fn spec_assigned_queue(queues: Seq<(Capability, u64)>, t: RenderQueueType) -> Option<u64>
    decreases queues.len(),
{
    if queues.len() == 0 {
        None
    } else if spec_queue_type_of(queues.last().0) == t {
        Some(queues.last().1)
    } else {
        spec_assigned_queue(queues.drop_last(), t)
    }
}

/// File the device's queues (each with its family's capability) under the
/// queue types: universal, compute and transfer, in that order.
pub fn assign_queues(queues: &Vec<(Capability, u64)>) -> (r: Vec<Option<u64>>)
    ensures
        r@ == seq![
            spec_assigned_queue(queues@, RenderQueueType::Universal),
            spec_assigned_queue(queues@, RenderQueueType::Compute),
            spec_assigned_queue(queues@, RenderQueueType::Transfer),
        ],
{
    let mut universal: Option<u64> = None;
    let mut compute: Option<u64> = None;
    let mut transfer: Option<u64> = None;
    let mut i: usize = 0;
    while i < queues.len()
        invariant
            i <= queues@.len(),
            universal == spec_assigned_queue(queues@.take(i as int), RenderQueueType::Universal),
            compute == spec_assigned_queue(queues@.take(i as int), RenderQueueType::Compute),
            transfer == spec_assigned_queue(queues@.take(i as int), RenderQueueType::Transfer),
        decreases queues@.len() - i,
    {
        proof {
            assert(queues@.take(i + 1).drop_last() =~= queues@.take(i as int));
        }
        let (c, raw) = queues[i];
        match c {
            Capability::Graphics | Capability::General => universal = Some(raw),
            Capability::Compute => compute = Some(raw),
            Capability::Transfer => transfer = Some(raw),
        }
        i += 1;
    }
    assert(queues@.take(i as int) =~= queues@);
    let mut r: Vec<Option<u64>> = Vec::new();
    r.push(universal);
    r.push(compute);
    r.push(transfer);
    assert(r@ =~= seq![universal, compute, transfer]);
    r
}

/// Kinds of command lists.
#[derive(Clone, Copy, Debug, PartialEq, Eq, Structural)]
pub enum RenderCommandListType {
    Invalid,
    Universal,
    Transfer,
    Compute,
    Present,
}

/// The queue type a command list is submitted to: present lists go to the
/// universal queue. Invalid lists have none.
pub open spec fn spec_list_queue_type(list_type: RenderCommandListType) -> RenderQueueType {
    match list_type {
        RenderCommandListType::Compute => RenderQueueType::Compute,
        RenderCommandListType::Transfer => RenderQueueType::Transfer,
        _ => RenderQueueType::Universal,
    }
}

pub fn get_list_queue_type(list_type: RenderCommandListType) -> (r: RenderQueueType)
    requires
        list_type != RenderCommandListType::Invalid,
    ensures
        r == spec_list_queue_type(list_type),
        list_type == RenderCommandListType::Compute <==> r == RenderQueueType::Compute,
        list_type == RenderCommandListType::Transfer <==> r == RenderQueueType::Transfer,
        list_type == RenderCommandListType::Universal || list_type == RenderCommandListType::Present
            <==> r == RenderQueueType::Universal,
{
    match list_type {
        RenderCommandListType::Compute => RenderQueueType::Compute,
        RenderCommandListType::Transfer => RenderQueueType::Transfer,
        _ => RenderQueueType::Universal,
    }
}

/// Some string of `names` is `name`.
pub open spec fn has_name(names: Seq<String>, name: Seq<char>) -> bool {
    exists|j: int| 0 <= j < names.len() && (#[trigger] names[j])@ == name
}

/// Whether `name` is among `names`.
pub fn contains_name(names: &Vec<String>, name: &String) -> (r: bool)
    ensures
        r == has_name(names@, name@),
{
    let mut i: usize = 0;
    while i < names.len()
        invariant
            i <= names@.len(),
            forall|k: int| 0 <= k < i ==> (#[trigger] names@[k])@ != name@,
        decreases names@.len() - i,
    {
        if names[i] == *name {
            assert(names@[i as int]@ == name@);
            return true;
        }
        i += 1;
    }
    false
}

/// Whether every required extension is among the available ones.
pub fn extensions_available(required: &Vec<String>, available: &Vec<String>) -> (r: bool)
    ensures
        r == forall|i: int| 0 <= i < required@.len() ==> has_name(available@, (#[trigger] required@[i])@),
{
    let mut i: usize = 0;
    while i < required.len()
        invariant
            i <= required@.len(),
            forall|k: int| 0 <= k < i ==> has_name(available@, (#[trigger] required@[k])@),
        decreases required@.len() - i,
    {
        if !contains_name(available, &required[i]) {
            return false;
        }
        i += 1;
    }
    true
}

/// Whether the swap chain extension is among the enabled ones.
pub fn swap_chain_enabled(extensions: &Vec<String>, swap_chain_name: &String) -> (r: bool)
    ensures
        r == has_name(extensions@, swap_chain_name@),
{
    contains_name(extensions, swap_chain_name)
}

/// Outcome of creating a command pool: the pool, or an out-of-memory
/// error. Other codes do not occur.
pub fn create_pool_outcome(result: i32, raw: u64) -> (r: Result<u64, OomError>)
    requires
        result == vulkan::RESULT_SUCCESS || OomError::is_oom_code(result),
    ensures
        result == vulkan::RESULT_SUCCESS ==> r == Ok::<u64, OomError>(raw),
        result != vulkan::RESULT_SUCCESS ==> r == Err::<u64, OomError>(OomError::spec_from_vk_result(result)),
{
    if result == vulkan::RESULT_SUCCESS {
        Ok(raw)
    } else {
        Err(OomError::from_vk_result(result))
    }
}

/// The device's resource tracker: it can be taken out once and must be
/// given back before resources are cleaned up.
pub struct DeviceTrackerSlot {
    pub tracker: Option<u64>,
}

impl DeviceTrackerSlot {
    pub fn new(device: u64) -> (r: Self)
        ensures
            r.tracker == Some(device),
    {
        DeviceTrackerSlot { tracker: Some(device) }
    }

    /// Take the tracker out; `None` while it is out.
    pub fn take_tracker(&mut self) -> (r: Option<u64>)
        ensures
            r == old(self).tracker,
            final(self).tracker == None::<u64>,
    {
        let r = self.tracker;
        self.tracker = None;
        r
    }

    /// Give the tracker back.
    pub fn return_tracker(&mut self, tracker: u64)
        requires
            old(self).tracker is None,
        ensures
            final(self).tracker == Some(tracker),
    {
        self.tracker = Some(tracker);
    }

    /// Whether resources can be cleaned up: only while the tracker is in.
    pub fn cleanup(&self) -> (r: bool)
        ensures
            r == self.tracker is Some,
    {
        self.tracker.is_some()
    }
}

} // verus!
