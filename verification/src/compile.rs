//! Resource state tracking while command lists are compiled: each resource
//! that a command touches is tracked in its current state, a change of
//! state queues a barrier, and the queued barriers are handed out to be
//! recorded in one pipeline barrier.

use vstd::prelude::*;
use crate::assoc::AssocList;
use crate::assoc::assoc_map;
use crate::assoc::keys_unique;
use crate::assoc::lemma_assoc_map_index;
use crate::assoc::lemma_assoc_map_dom;
use crate::format::get_image_aspect_flags;
use crate::format::spec_image_aspect_flags;
use crate::image::RenderTextureDesc;
use crate::image::RenderTextureType;
use crate::image::is_cube;
use crate::states::RenderResourceStates;
use crate::states::AccessType;
use crate::states::BarrierLayout;
use crate::states::has_buffer_only_state;
use crate::states::has_image_only_state;
use crate::states::spec_get_image_access_type;
use crate::states::spec_get_buffer_access_type;
use crate::states::spec_barrier_layout;
use crate::states::get_image_access_type;
use crate::states::get_buffer_access_type;
use crate::states::barrier_layout;
use crate::command_list::CommandListState;
use crate::device::RenderCommandListType;

verus! {

/// What a tracked resource is: a texture with its image and description,
/// or a buffer with its size.
#[derive(Clone, Copy, Debug, PartialEq, Eq, Structural)]
pub enum ResourceKind {
    Texture { image: u64, desc: RenderTextureDesc },
    Buffer { buffer: u64, size: usize },
}

/// A resource as the tracker sees it: its handle, the state it rests in
/// between command lists, and what it is.
#[derive(Clone, Copy, Debug, PartialEq, Eq, Structural)]
pub struct TrackedResource {
    pub handle: u64,
    pub default_state: RenderResourceStates,
    pub kind: ResourceKind,
}

/// A queued image barrier.
#[derive(Clone, Copy, Debug, PartialEq, Eq, Structural)]
pub struct ImageBarrier {
    pub previous_access: AccessType,
    pub next_access: AccessType,
    pub previous_layout: BarrierLayout,
    pub next_layout: BarrierLayout,
    pub image: u64,
    pub aspect_mask: u32,
    pub level_count: u32,
    pub layer_count: u32,
}

/// A queued buffer barrier over the whole buffer.
#[derive(Clone, Copy, Debug, PartialEq, Eq, Structural)]
pub struct BufferBarrier {
    pub previous_access: AccessType,
    pub next_access: AccessType,
    pub buffer: u64,
    pub offset: usize,
    pub size: usize,
}

/// A tracked resource and the state it is in.
#[derive(Clone, Copy, Debug, PartialEq, Eq, Structural)]
pub struct TrackerEntry {
    pub resource: TrackedResource,
    pub state: RenderResourceStates,
}

/// States a resource of this kind can be in: textures are never in a
/// buffer-only state, buffers never in an image-only state nor in stream
/// output.
pub open spec fn state_allowed(kind: ResourceKind, states: RenderResourceStates) -> bool {
    match kind {
        ResourceKind::Texture { .. } => !has_buffer_only_state(states),
        ResourceKind::Buffer { .. } => !states.spec_contains(RenderResourceStates::STREAM_OUT)
            && !has_image_only_state(states),
    }
}

/// A resource that can be tracked: it has a live image or buffer and its
/// default state suits its kind.
pub open spec fn resource_ok(r: TrackedResource) -> bool {
    &&& match r.kind {
        ResourceKind::Texture { image, .. } => image != 0,
        ResourceKind::Buffer { buffer, .. } => buffer != 0,
    }
    &&& state_allowed(r.kind, r.default_state)
}

/// Layers an image barrier covers: six per element for cube textures.
pub open spec fn barrier_layer_count(desc: RenderTextureDesc) -> u32 {
    if is_cube(desc.texture_type) { (desc.elements * 6) as u32 } else { desc.elements as u32 }
}

/// The barrier that moves an image from one state to another, over all
/// its levels and layers and all its aspects.
pub open spec fn spec_image_barrier(image: u64, desc: RenderTextureDesc, before: RenderResourceStates, after: RenderResourceStates) -> ImageBarrier {
    ImageBarrier {
        previous_access: spec_get_image_access_type(before),
        next_access: spec_get_image_access_type(after),
        previous_layout: spec_barrier_layout(spec_get_image_access_type(before)),
        next_layout: spec_barrier_layout(spec_get_image_access_type(after)),
        image,
        aspect_mask: spec_image_aspect_flags(desc.format, false),
        level_count: desc.levels as u32,
        layer_count: barrier_layer_count(desc),
    }
}

/// The barrier that moves a whole buffer from one state to another.
pub open spec fn spec_buffer_barrier(buffer: u64, size: usize, before: RenderResourceStates, after: RenderResourceStates) -> BufferBarrier {
    BufferBarrier {
        previous_access: spec_get_buffer_access_type(before),
        next_access: spec_get_buffer_access_type(after),
        buffer,
        offset: 0,
        size,
    }
}

/// The state a resource is in as far as the tracker knows: the tracked
/// state, or the resource's default state when it is not tracked yet.
pub open spec fn current_state(tracker: Map<u64, TrackerEntry>, r: TrackedResource) -> RenderResourceStates {
    if tracker.contains_key(r.handle) { tracker[r.handle].state } else { r.default_state }
}

/// Queues after a barrier for `r` from `before` to `after` was queued: it
/// replaces any barrier queued for the same resource.
pub open spec fn queued_images(images: Map<u64, ImageBarrier>, r: TrackedResource, before: RenderResourceStates, after: RenderResourceStates) -> Map<u64, ImageBarrier> {
    match r.kind {
        ResourceKind::Texture { image, desc } => images.insert(r.handle, spec_image_barrier(image, desc, before, after)),
        ResourceKind::Buffer { .. } => images,
    }
}

pub open spec fn queued_buffers(buffers: Map<u64, BufferBarrier>, r: TrackedResource, before: RenderResourceStates, after: RenderResourceStates) -> Map<u64, BufferBarrier> {
    match r.kind {
        ResourceKind::Texture { .. } => buffers,
        ResourceKind::Buffer { buffer, size } => buffers.insert(r.handle, spec_buffer_barrier(buffer, size, before, after)),
    }
}

/// A tracked entry whose resource is not in its default state, so that a
/// barrier back to the default state is due.
pub open spec fn restore_due(e: TrackerEntry) -> bool {
    e.state != e.resource.default_state
}

/// Image barriers queued after every tracked texture was sent back to its
/// default state.
pub open spec fn restored_images(tracker: Map<u64, TrackerEntry>, images: Map<u64, ImageBarrier>) -> Map<u64, ImageBarrier> {
    Map::new(
        |h: u64| images.contains_key(h) || (tracker.contains_key(h) && restore_due(tracker[h]) && tracker[h].resource.kind is Texture),
        |h: u64|
            if tracker.contains_key(h) && restore_due(tracker[h]) && tracker[h].resource.kind is Texture {
                spec_image_barrier(
                    tracker[h].resource.kind->image,
                    tracker[h].resource.kind->desc,
                    tracker[h].state,
                    tracker[h].resource.default_state,
                )
            } else {
                images[h]
            },
    )
}

/// Buffer barriers queued after every tracked buffer was sent back to its
/// default state.
pub open spec fn restored_buffers(tracker: Map<u64, TrackerEntry>, buffers: Map<u64, BufferBarrier>) -> Map<u64, BufferBarrier> {
    Map::new(
        |h: u64| buffers.contains_key(h) || (tracker.contains_key(h) && restore_due(tracker[h]) && tracker[h].resource.kind is Buffer),
        |h: u64|
            if tracker.contains_key(h) && restore_due(tracker[h]) && tracker[h].resource.kind is Buffer {
                spec_buffer_barrier(
                    tracker[h].resource.kind->buffer,
                    tracker[h].resource.kind->size,
                    tracker[h].state,
                    tracker[h].resource.default_state,
                )
            } else {
                buffers[h]
            },
    )
}

/// The state of compiling command lists: the tracked resources and the
/// barriers waiting to be recorded.
pub struct RenderCompileContext {
    pub resource_tracker: AssocList<TrackerEntry>,
    pub pending_image_barriers: AssocList<ImageBarrier>,
    pub pending_buffer_barriers: AssocList<BufferBarrier>,
    pub command_buffer: Option<u64>,
}

impl RenderCompileContext {
    /// The lists are well formed, each tracked entry is filed under its
    /// own handle, and its resource and state are sound.
    pub open spec fn wf(&self) -> bool {
        &&& self.resource_tracker.wf()
        &&& self.pending_image_barriers.wf()
        &&& self.pending_buffer_barriers.wf()
        &&& forall|h: u64| #[trigger] self.resource_tracker@.contains_key(h) ==> {
            &&& self.resource_tracker@[h].resource.handle == h
            &&& resource_ok(self.resource_tracker@[h].resource)
            &&& state_allowed(self.resource_tracker@[h].resource.kind, self.resource_tracker@[h].state)
        }
    }

    /// The resource agrees with what is tracked under its handle.
    pub open spec fn consistent(&self, r: TrackedResource) -> bool {
        self.resource_tracker@.contains_key(r.handle) ==> self.resource_tracker@[r.handle].resource == r
    }

    pub fn new() -> (r: Self)
        ensures
            r.wf(),
            r.resource_tracker@ == Map::<u64, TrackerEntry>::empty(),
            r.pending_image_barriers@ == Map::<u64, ImageBarrier>::empty(),
            r.pending_buffer_barriers@ == Map::<u64, BufferBarrier>::empty(),
            r.command_buffer is None,
    {
        RenderCompileContext {
            resource_tracker: AssocList::new(),
            pending_image_barriers: AssocList::new(),
            pending_buffer_barriers: AssocList::new(),
            command_buffer: None,
        }
    }

    /// Whether lists are being compiled as one batch into a list that is
    /// already open.
    pub fn is_batch(&self, native: &CommandListState) -> (r: bool)
        ensures
            r == (native.command_buffer is Some && native.opened && self.command_buffer is Some),
    {
        native.is_open() && self.command_buffer.is_some()
    }

    /// Start compiling into `native`, opening it with `buffer`.
    pub fn begin_compile(&mut self, native: &mut CommandListState, buffer: u64)
        requires
            old(native).wf(),
            !(old(native).command_buffer is Some && old(native).opened),
            !old(native).opened,
            old(native).command_buffer is None,
            old(native).list_type == RenderCommandListType::Universal,
            old(self).command_buffer is None,
        ensures
            final(self).command_buffer == Some(buffer),
            *final(native) == CommandListState::spec_open(*old(native), buffer),
            final(self).resource_tracker@ == old(self).resource_tracker@,
            final(self).pending_image_barriers@ == old(self).pending_image_barriers@,
            final(self).pending_buffer_barriers@ == old(self).pending_buffer_barriers@,
            final(self).resource_tracker.wf() == old(self).resource_tracker.wf(),
            final(self).pending_image_barriers.wf() == old(self).pending_image_barriers.wf(),
            final(self).pending_buffer_barriers.wf() == old(self).pending_buffer_barriers.wf(),
    {
        let b = native.open(buffer);
        self.command_buffer = Some(b);
    }

    /// Finish compiling into `native`, closing it.
    pub fn finish_compile(&mut self, native: &mut CommandListState)
        requires
            old(native).wf(),
            old(native).command_buffer is Some && old(native).opened,
            old(self).command_buffer is Some,
        ensures
            final(self).command_buffer is None,
            *final(native) == CommandListState::spec_close(*old(native)),
            final(self).resource_tracker@ == old(self).resource_tracker@,
            final(self).pending_image_barriers@ == old(self).pending_image_barriers@,
            final(self).pending_buffer_barriers@ == old(self).pending_buffer_barriers@,
            final(self).resource_tracker.wf() == old(self).resource_tracker.wf(),
            final(self).pending_image_barriers.wf() == old(self).pending_image_barriers.wf(),
            final(self).pending_buffer_barriers.wf() == old(self).pending_buffer_barriers.wf(),
    {
        self.command_buffer = None;
        native.close();
    }

    /// Queue a barrier for `r` from `before` to `after`, replacing any
    /// barrier already queued for it.
    pub fn add_transition(&mut self, r: &TrackedResource, before: RenderResourceStates, after: RenderResourceStates)
        requires
            old(self).wf(),
            resource_ok(*r),
            state_allowed(r.kind, before),
            state_allowed(r.kind, after),
        ensures
            final(self).wf(),
            final(self).resource_tracker@ == old(self).resource_tracker@,
            final(self).pending_image_barriers@ == queued_images(old(self).pending_image_barriers@, *r, before, after),
            final(self).pending_buffer_barriers@ == queued_buffers(old(self).pending_buffer_barriers@, *r, before, after),
            final(self).command_buffer == old(self).command_buffer,
    {
        match r.kind {
            ResourceKind::Texture { image, desc } => {
                let barrier = make_image_barrier(image, &desc, before, after);
                self.pending_image_barriers.insert(r.handle, barrier);
            },
            ResourceKind::Buffer { buffer, size } => {
                let previous_access = get_buffer_access_type(before);
                let next_access = get_buffer_access_type(after);
                let barrier = BufferBarrier { previous_access, next_access, buffer, offset: 0, size };
                self.pending_buffer_barriers.insert(r.handle, barrier);
            },
        }
    }

    /// Move `r` to `after`, queueing a barrier from the state it is in
    /// unless it is in `after` already. Returns the state it was in.
    pub fn add_transition_to(&mut self, r: &TrackedResource, after: RenderResourceStates) -> (before: RenderResourceStates)
        requires
            old(self).wf(),
            old(self).consistent(*r),
            resource_ok(*r),
            state_allowed(r.kind, after),
        ensures
            final(self).wf(),
            final(self).consistent(*r),
            before == current_state(old(self).resource_tracker@, *r),
            final(self).resource_tracker@ == old(self).resource_tracker@.insert(r.handle, TrackerEntry { resource: *r, state: after }),
            after != before ==> final(self).pending_image_barriers@ == queued_images(old(self).pending_image_barriers@, *r, before, after),
            after != before ==> final(self).pending_buffer_barriers@ == queued_buffers(old(self).pending_buffer_barriers@, *r, before, after),
            after == before ==> final(self).pending_image_barriers@ == old(self).pending_image_barriers@,
            after == before ==> final(self).pending_buffer_barriers@ == old(self).pending_buffer_barriers@,
            final(self).command_buffer == old(self).command_buffer,
    {
        let before_state = match self.resource_tracker.get(r.handle) {
            Some(entry) => entry.state,
            None => r.default_state,
        };
        if after.bits != before_state.bits {
            self.add_transition(r, before_state, after);
        }
        self.resource_tracker.insert(r.handle, TrackerEntry { resource: *r, state: after });
        proof {
            assert(self.resource_tracker@[r.handle].resource == *r);
        }
        before_state
    }

    /// Make `r` ready for unordered access: move it there, and when it is
    /// there already, queue a barrier between two unordered accesses. A
    /// barrier is queued either way.
    pub fn add_uav_barrier(&mut self, r: &TrackedResource) -> (before: RenderResourceStates)
        requires
            old(self).wf(),
            old(self).consistent(*r),
            resource_ok(*r),
        ensures
            final(self).wf(),
            final(self).consistent(*r),
            before == current_state(old(self).resource_tracker@, *r),
            final(self).resource_tracker@ == old(self).resource_tracker@.insert(
                r.handle,
                TrackerEntry { resource: *r, state: RenderResourceStates { bits: RenderResourceStates::UNORDERED_ACCESS } },
            ),
            final(self).pending_image_barriers@ == queued_images(
                old(self).pending_image_barriers@, *r, before,
                RenderResourceStates { bits: RenderResourceStates::UNORDERED_ACCESS },
            ),
            final(self).pending_buffer_barriers@ == queued_buffers(
                old(self).pending_buffer_barriers@, *r, before,
                RenderResourceStates { bits: RenderResourceStates::UNORDERED_ACCESS },
            ),
            final(self).command_buffer == old(self).command_buffer,
    {
        let uav = RenderResourceStates { bits: RenderResourceStates::UNORDERED_ACCESS };
        assert(state_allowed(r.kind, uav)) by {
            let b = uav.bits;
            assert(b & 0x1 != 0x1 && b & 0x2 != 0x2 && b & 0x100 != 0x100 && b & 0x200 != 0x200) by (bit_vector)
                requires b == 0x8u32;
            assert(b & 0x4 != 0x4 && b & 0x10 != 0x10 && b & 0x20 != 0x20) by (bit_vector)
                requires b == 0x8u32;
        }
        let before = self.add_transition_to(r, uav);
        if before.bits == RenderResourceStates::UNORDERED_ACCESS {
            self.add_transition(r, uav, uav);
        }
        before
    }

    /// Send every tracked resource back to its default state and stop
    /// tracking: a barrier is queued for each one that is elsewhere.
    pub fn restore_default_states(&mut self)
        requires
            old(self).wf(),
        ensures
            final(self).wf(),
            final(self).resource_tracker@ == Map::<u64, TrackerEntry>::empty(),
            final(self).pending_image_barriers@ == restored_images(old(self).resource_tracker@, old(self).pending_image_barriers@),
            final(self).pending_buffer_barriers@ == restored_buffers(old(self).resource_tracker@, old(self).pending_buffer_barriers@),
            final(self).command_buffer == old(self).command_buffer,
    {
        let ghost tracker = self.resource_tracker@;
        let ghost images0 = self.pending_image_barriers@;
        let ghost buffers0 = self.pending_buffer_barriers@;
        let n = self.resource_tracker.items.len();
        let mut i: usize = 0;
        assert(self.resource_tracker.items@.take(0) =~= Seq::<(u64, TrackerEntry)>::empty());
        assert(restored_images(assoc_map(Seq::<(u64, TrackerEntry)>::empty()), images0) =~= images0);
        assert(restored_buffers(assoc_map(Seq::<(u64, TrackerEntry)>::empty()), buffers0) =~= buffers0);
        while i < n
            invariant
                self.wf(),
                n == self.resource_tracker.items@.len(),
                self.resource_tracker@ == tracker,
                self.command_buffer == old(self).command_buffer,
                i <= n,
                self.pending_image_barriers@ == restored_images(assoc_map(self.resource_tracker.items@.take(i as int)), images0),
                self.pending_buffer_barriers@ == restored_buffers(assoc_map(self.resource_tracker.items@.take(i as int)), buffers0),
            decreases n - i,
        {
            let (handle, entry) = self.resource_tracker.items[i];
            let ghost items = self.resource_tracker.items@;
            let ghost prefix = items.take(i as int);
            let ghost next = items.take(i + 1);
            proof {
                assert(next.drop_last() =~= prefix);
                assert(assoc_map(next) == assoc_map(prefix).insert(handle, entry));
                lemma_assoc_map_index(items, i as int);
                assert(tracker.contains_key(handle));
                lemma_assoc_map_dom(prefix, handle);
                if assoc_map(prefix).contains_key(handle) {
                    let j = choose|j: int| 0 <= j < prefix.len() && prefix[j].0 == handle;
                    assert(items[j].0 == items[i as int].0);
                }
            }
            let r = entry.resource;
            if entry.state.bits != r.default_state.bits {
                match r.kind {
                    ResourceKind::Texture { image, desc } => {
                        let barrier = make_image_barrier(image, &desc, entry.state, r.default_state);
                        self.pending_image_barriers.insert(handle, barrier);
                    },
                    ResourceKind::Buffer { buffer, size } => {
                        let previous_access = get_buffer_access_type(entry.state);
                        let next_access = get_buffer_access_type(r.default_state);
                        let barrier = BufferBarrier { previous_access, next_access, buffer, offset: 0, size };
                        self.pending_buffer_barriers.insert(handle, barrier);
                    },
                }
            }
            proof {
                assert(self.pending_image_barriers@ =~= restored_images(assoc_map(next), images0));
                assert(self.pending_buffer_barriers@ =~= restored_buffers(assoc_map(next), buffers0));
            }
            i += 1;
        }
        assert(self.resource_tracker.items@.take(n as int) =~= self.resource_tracker.items@);
        self.resource_tracker.clear();
    }

    /// Hand out the queued barriers, image barriers and buffer barriers in
    /// the order they were first queued, and empty the queues.
    pub fn take_transitions(&mut self) -> (r: (Vec<ImageBarrier>, Vec<BufferBarrier>))
        requires
            old(self).wf(),
        ensures
            final(self).wf(),
            final(self).resource_tracker@ == old(self).resource_tracker@,
            final(self).pending_image_barriers@ == Map::<u64, ImageBarrier>::empty(),
            final(self).pending_buffer_barriers@ == Map::<u64, BufferBarrier>::empty(),
            r.0@ == old(self).pending_image_barriers.items@.map_values(|p: (u64, ImageBarrier)| p.1),
            r.1@ == old(self).pending_buffer_barriers.items@.map_values(|p: (u64, BufferBarrier)| p.1),
            final(self).command_buffer == old(self).command_buffer,
    {
        let mut images: Vec<ImageBarrier> = Vec::new();
        let mut i: usize = 0;
        while i < self.pending_image_barriers.items.len()
            invariant
                i <= self.pending_image_barriers.items@.len(),
                images@ == self.pending_image_barriers.items@.take(i as int).map_values(|p: (u64, ImageBarrier)| p.1),
            decreases self.pending_image_barriers.items@.len() - i,
        {
            images.push(self.pending_image_barriers.items[i].1);
            i += 1;
            assert(images@ =~= self.pending_image_barriers.items@.take(i as int).map_values(|p: (u64, ImageBarrier)| p.1));
        }
        assert(self.pending_image_barriers.items@.take(i as int) =~= self.pending_image_barriers.items@);
        let mut buffers: Vec<BufferBarrier> = Vec::new();
        let mut j: usize = 0;
        while j < self.pending_buffer_barriers.items.len()
            invariant
                j <= self.pending_buffer_barriers.items@.len(),
                buffers@ == self.pending_buffer_barriers.items@.take(j as int).map_values(|p: (u64, BufferBarrier)| p.1),
            decreases self.pending_buffer_barriers.items@.len() - j,
        {
            buffers.push(self.pending_buffer_barriers.items[j].1);
            j += 1;
            assert(buffers@ =~= self.pending_buffer_barriers.items@.take(j as int).map_values(|p: (u64, BufferBarrier)| p.1));
        }
        assert(self.pending_buffer_barriers.items@.take(j as int) =~= self.pending_buffer_barriers.items@);
        self.pending_image_barriers.clear();
        self.pending_buffer_barriers.clear();
        (images, buffers)
    }

    /// Send every tracked resource back to its default state, stop
    /// tracking, and hand out the barriers then pending (those queued
    /// before, and one for each resource that was not in its default
    /// state), emptying the queues. Right after such a call, another one
    /// hands out nothing.
    pub fn apply_default_state(&mut self) -> (r: (Vec<ImageBarrier>, Vec<BufferBarrier>))
        requires
            old(self).wf(),
        ensures
            final(self).wf(),
            final(self).resource_tracker@ == Map::<u64, TrackerEntry>::empty(),
            final(self).pending_image_barriers@ == Map::<u64, ImageBarrier>::empty(),
            final(self).pending_buffer_barriers@ == Map::<u64, BufferBarrier>::empty(),
            final(self).command_buffer == old(self).command_buffer,
            exists|images: Seq<(u64, ImageBarrier)>, buffers: Seq<(u64, BufferBarrier)>| {
                &&& keys_unique(images)
                &&& keys_unique(buffers)
                &&& #[trigger] assoc_map(images) == restored_images(old(self).resource_tracker@, old(self).pending_image_barriers@)
                &&& #[trigger] assoc_map(buffers) == restored_buffers(old(self).resource_tracker@, old(self).pending_buffer_barriers@)
                &&& r.0@ == images.map_values(|p: (u64, ImageBarrier)| p.1)
                &&& r.1@ == buffers.map_values(|p: (u64, BufferBarrier)| p.1)
            },
            (old(self).resource_tracker@ == Map::<u64, TrackerEntry>::empty()
                && old(self).pending_image_barriers@ == Map::<u64, ImageBarrier>::empty()
                && old(self).pending_buffer_barriers@ == Map::<u64, BufferBarrier>::empty())
                ==> r.0@.len() == 0 && r.1@.len() == 0,
    {
        self.restore_default_states();
        let ghost images = self.pending_image_barriers.items@;
        let ghost buffers = self.pending_buffer_barriers.items@;
        let r = self.take_transitions();
        proof {
            assert(assoc_map(images) == restored_images(old(self).resource_tracker@, old(self).pending_image_barriers@));
            assert(assoc_map(buffers) == restored_buffers(old(self).resource_tracker@, old(self).pending_buffer_barriers@));
            if old(self).resource_tracker@ == Map::<u64, TrackerEntry>::empty()
                && old(self).pending_image_barriers@ == Map::<u64, ImageBarrier>::empty()
                && old(self).pending_buffer_barriers@ == Map::<u64, BufferBarrier>::empty() {
                assert(assoc_map(images) =~= Map::<u64, ImageBarrier>::empty());
                assert(assoc_map(buffers) =~= Map::<u64, BufferBarrier>::empty());
                if images.len() > 0 {
                    lemma_assoc_map_dom(images, images[0].0);
                }
                if buffers.len() > 0 {
                    lemma_assoc_map_dom(buffers, buffers[0].0);
                }
            }
        }
        r
    }
}

/// What the tracker says of a resource after a transition: the resource
/// is in the state it was moved to, every other resource is where it was,
/// and once the tracker is emptied (after restoring default states) every
/// resource is in its default state again.
pub proof fn lemma_tracker_read_after_write(
    tracker: Map<u64, TrackerEntry>,
    r: TrackedResource,
    after: RenderResourceStates,
    other: TrackedResource,
)
    ensures
        current_state(tracker.insert(r.handle, TrackerEntry { resource: r, state: after }), r) == after,
        other.handle != r.handle ==> current_state(
            tracker.insert(r.handle, TrackerEntry { resource: r, state: after }),
            other,
        ) == current_state(tracker, other),
        current_state(Map::<u64, TrackerEntry>::empty(), r) == r.default_state,
{
}

/// Barrier for an image from one state to another.
pub fn make_image_barrier(image: u64, desc: &RenderTextureDesc, before: RenderResourceStates, after: RenderResourceStates) -> (r: ImageBarrier)
    requires
        !has_buffer_only_state(before),
        !has_buffer_only_state(after),
    ensures
        r == spec_image_barrier(image, *desc, before, after),
{
    let previous_access = get_image_access_type(before);
    let next_access = get_image_access_type(after);
    let layer_count: u32 = match desc.texture_type {
        RenderTextureType::Cube | RenderTextureType::CubeArray => desc.elements as u32 * 6,
        _ => desc.elements as u32,
    };
    ImageBarrier {
        previous_access,
        next_access,
        previous_layout: barrier_layout(previous_access),
        next_layout: barrier_layout(next_access),
        image,
        aspect_mask: get_image_aspect_flags(desc.format, false),
        level_count: desc.levels as u32,
        layer_count,
    }
}

// ---------------------------------------------------------------------
// Buffer updates

/// Largest update a single buffer update command may carry.
pub const UPDATE_CHUNK_LIMIT: usize = 65536;

/// One buffer update command: where its data starts in the command list's
/// data, where it lands in the buffer, and its size.
#[derive(Clone, Copy, Debug, PartialEq, Eq, Structural)]
pub struct UpdateChunk {
    pub data_offset: usize,
    pub dst_offset: u64,
    pub size: usize,
}

/// Number of chunks an update of `size` bytes is split into.
pub open spec fn chunk_count(size: int) -> int {
    (size + UPDATE_CHUNK_LIMIT - 1) / (UPDATE_CHUNK_LIMIT as int)
}

/// Chunk `i` of an update: full chunks, the last one holding the rest.
pub open spec fn spec_update_chunk(data: usize, offset: usize, size: usize, i: int) -> UpdateChunk {
    let start = i * UPDATE_CHUNK_LIMIT;
    let rest = size - start;
    UpdateChunk {
        data_offset: (data + start) as usize,
        dst_offset: (start + offset) as u64,
        size: (if rest < UPDATE_CHUNK_LIMIT { rest } else { UPDATE_CHUNK_LIMIT as int }) as usize,
    }
}

/// Split an update of `size` bytes of command data at `data` into the
/// buffer at `offset` into chunks of at most the limit, in order.
pub fn update_buffer_chunks(data: usize, offset: usize, size: usize) -> (r: Vec<UpdateChunk>)
    requires
        data + size + UPDATE_CHUNK_LIMIT <= usize::MAX,
        offset + size + UPDATE_CHUNK_LIMIT <= u64::MAX,
    ensures
        r@.len() == chunk_count(size as int),
        forall|i: int| 0 <= i < r@.len() ==> #[trigger] r@[i] == spec_update_chunk(data, offset, size, i),
{
    let count = (size + (UPDATE_CHUNK_LIMIT - 1)) / UPDATE_CHUNK_LIMIT;
    let mut remaining = size;
    let mut r: Vec<UpdateChunk> = Vec::new();
    let mut i: usize = 0;
    proof {
        assert(count * UPDATE_CHUNK_LIMIT <= size + UPDATE_CHUNK_LIMIT - 1) by (nonlinear_arith)
            requires count == (size + (UPDATE_CHUNK_LIMIT - 1)) / (UPDATE_CHUNK_LIMIT as int);
    }
    while i < count
        invariant
            i <= count,
            count == chunk_count(size as int),
            count * UPDATE_CHUNK_LIMIT <= size + UPDATE_CHUNK_LIMIT - 1,
            data + size + UPDATE_CHUNK_LIMIT <= usize::MAX,
            offset + size + UPDATE_CHUNK_LIMIT <= u64::MAX,
            remaining as int == (if size >= i * UPDATE_CHUNK_LIMIT { size - i * UPDATE_CHUNK_LIMIT } else { 0 }),
            r@.len() == i,
            forall|k: int| 0 <= k < i ==> #[trigger] r@[k] == spec_update_chunk(data, offset, size, k),
        decreases count - i,
    {
        proof {
            assert(i * UPDATE_CHUNK_LIMIT < size) by (nonlinear_arith)
                requires i < count, count * UPDATE_CHUNK_LIMIT <= size + UPDATE_CHUNK_LIMIT - 1;
            assert((i + 1) * UPDATE_CHUNK_LIMIT == i * UPDATE_CHUNK_LIMIT + UPDATE_CHUNK_LIMIT) by (nonlinear_arith);
        }
        let chunk_size = if remaining < UPDATE_CHUNK_LIMIT { remaining } else { UPDATE_CHUNK_LIMIT };
        let chunk_offset = i * UPDATE_CHUNK_LIMIT;
        r.push(UpdateChunk {
            data_offset: data + chunk_offset,
            dst_offset: chunk_offset as u64 + offset as u64,
            size: chunk_size,
        });
        remaining = remaining - chunk_size;
        i += 1;
    }
    r
}

/// The chunks of an update tile it: the first starts at the update's
/// offset, each holds between one byte and the limit, each starts (in the
/// buffer and in the command data) where the one before it ends, and the
/// last ends where the update ends.
pub proof fn lemma_update_chunks_tile(data: usize, offset: usize, size: usize)
    requires
        data + size + UPDATE_CHUNK_LIMIT <= usize::MAX,
        offset + size + UPDATE_CHUNK_LIMIT <= u64::MAX,
        size > 0,
    ensures
        chunk_count(size as int) >= 1,
        spec_update_chunk(data, offset, size, 0).dst_offset == offset,
        spec_update_chunk(data, offset, size, 0).data_offset == data,
        forall|i: int| 0 <= i < chunk_count(size as int) ==>
            0 < (#[trigger] spec_update_chunk(data, offset, size, i)).size <= UPDATE_CHUNK_LIMIT,
        forall|i: int| 0 <= i < chunk_count(size as int) - 1 ==> {
            let c = #[trigger] spec_update_chunk(data, offset, size, i);
            let n = spec_update_chunk(data, offset, size, i + 1);
            &&& n.dst_offset == c.dst_offset + c.size
            &&& n.data_offset == c.data_offset + c.size
        },
        ({
            let last = spec_update_chunk(data, offset, size, chunk_count(size as int) - 1);
            last.dst_offset + last.size == offset + size
        }),
{
    let count = chunk_count(size as int);
    let l = UPDATE_CHUNK_LIMIT as int;
    assert(l == 65536);
    assert(count * l <= size + l - 1 && count * l >= size && count >= 1) by (nonlinear_arith)
        requires count == (size + l - 1) / l, l == 65536, size > 0;
    assert forall|i: int| 0 <= i < count implies
        0 < (#[trigger] spec_update_chunk(data, offset, size, i)).size <= UPDATE_CHUNK_LIMIT by {
        assert(i * l < size) by (nonlinear_arith)
            requires 0 <= i < count, count * l <= size + l - 1, l == 65536;
    }
    assert forall|i: int| 0 <= i < count - 1 implies {
        let c = #[trigger] spec_update_chunk(data, offset, size, i);
        let n = spec_update_chunk(data, offset, size, i + 1);
        &&& n.dst_offset == c.dst_offset + c.size
        &&& n.data_offset == c.data_offset + c.size
    } by {
        assert((i + 1) * l <= size) by (nonlinear_arith)
            requires 0 <= i < count - 1, count * l <= size + l - 1, l == 65536;
        assert((i + 1) * l == i * l + l) by (nonlinear_arith);
        assert(i * l >= 0) by (nonlinear_arith) requires i >= 0, l == 65536;
    }
    assert((count - 1) * l == count * l - l) by (nonlinear_arith);
}

// ---------------------------------------------------------------------
// Draw state

/// A scissor rectangle.
#[derive(Clone, Copy, Debug, PartialEq, Eq, Structural)]
pub struct ScissorRect {
    pub x: i32,
    pub y: i32,
    pub width: i32,
    pub height: i32,
}

/// The scissor and stencil reference of a draw state (its viewport is
/// handled with floats, outside this module).
#[derive(Clone, Copy, Debug, PartialEq, Eq, Structural)]
pub struct DrawStateInts {
    pub scissor: Option<ScissorRect>,
    pub stencil_ref: u8,
}

/// Dynamic state to set for a draw.
#[derive(Clone, Copy, Debug, PartialEq, Eq, Structural)]
pub struct DrawStateCommands {
    pub set_scissor: Option<ScissorRect>,
    pub set_stencil_ref: Option<u8>,
}

/// The draw state cache: the state of the first draw. It is only set once:
/// later draws compare with it but do not replace it.
pub struct DrawStateCache {
    pub cached: Option<DrawStateInts>,
}

/// Commands for a draw state: the first one sets its scissor (if any) and
/// its stencil reference; later ones set what differs from the cached one.
pub open spec fn spec_draw_state_commands(cached: Option<DrawStateInts>, s: DrawStateInts) -> DrawStateCommands {
    match cached {
        None => DrawStateCommands { set_scissor: s.scissor, set_stencil_ref: Some(s.stencil_ref) },
        Some(c) => DrawStateCommands {
            set_scissor: match s.scissor {
                Some(new) => if c.scissor == Some(new) { None } else { Some(new) },
                None => None,
            },
            set_stencil_ref: if c.stencil_ref != s.stencil_ref { Some(s.stencil_ref) } else { None },
        },
    }
}

impl DrawStateCache {
    pub fn new() -> (r: Self)
        ensures
            r.cached is None,
    {
        DrawStateCache { cached: None }
    }

    /// The commands to apply a draw state.
    pub fn apply(&mut self, s: DrawStateInts) -> (r: DrawStateCommands)
        ensures
            r == spec_draw_state_commands(old(self).cached, s),
            final(self).cached == (match old(self).cached { None => Some(s), Some(c) => Some(c) }),
    {
        match self.cached {
            None => {
                self.cached = Some(s);
                DrawStateCommands { set_scissor: s.scissor, set_stencil_ref: Some(s.stencil_ref) }
            },
            Some(c) => {
                let set_scissor = match s.scissor {
                    Some(new) => {
                        let stale = match c.scissor {
                            Some(old_scissor) => old_scissor != new,
                            None => true,
                        };
                        if stale { Some(new) } else { None }
                    },
                    None => None,
                };
                let set_stencil_ref = if c.stencil_ref != s.stencil_ref { Some(s.stencil_ref) } else { None };
                DrawStateCommands { set_scissor, set_stencil_ref }
            },
        }
    }
}

} // verus!
