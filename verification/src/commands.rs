//! Compiling a command list, as far as resource states go: each command
//! moves the resources it touches into the states it needs, the barriers
//! this queues are handed out before (and, for some commands, after) the
//! command's own work, and at the end of the list every tracked resource is
//! sent back to its default state.

use vstd::prelude::*;
use crate::vulkan;
use crate::assoc::assoc_map;
use crate::assoc::keys_unique;
use crate::assoc::lemma_assoc_map_dom;
use crate::assoc::lemma_assoc_map_index;
use crate::states::RenderResourceStates;
use crate::states::AccessType;
use crate::states::spec_get_image_access_type;
use crate::states::spec_get_buffer_access_type;
use crate::compile::RenderCompileContext;
use crate::compile::TrackedResource;
use crate::compile::TrackerEntry;
use crate::compile::ImageBarrier;
use crate::compile::BufferBarrier;
use crate::compile::ResourceKind;
use crate::compile::resource_ok;
use crate::compile::state_allowed;
use crate::compile::current_state;
use crate::compile::queued_images;
use crate::compile::queued_buffers;
use crate::compile::restored_images;
use crate::compile::restored_buffers;
use crate::command_list::CommandListState;
use crate::device::RenderCommandListType;

verus! {

/// What the tracker knows while compiling: the state of each tracked
/// resource, and the image and buffer barriers waiting to be recorded.
pub type TrackState = (Map<u64, TrackerEntry>, Map<u64, ImageBarrier>, Map<u64, BufferBarrier>);

/// The tracker state of a compile context.
pub open spec fn track_state(ctx: RenderCompileContext) -> TrackState {
    (ctx.resource_tracker@, ctx.pending_image_barriers@, ctx.pending_buffer_barriers@)
}

/// The tracker after `r` was moved to `after`: it is tracked in that
/// state, and a barrier from its current state is queued when the two
/// differ.
pub open spec fn spec_to(st: TrackState, r: TrackedResource, after: RenderResourceStates) -> TrackState {
    let before = current_state(st.0, r);
    (
        st.0.insert(r.handle, TrackerEntry { resource: r, state: after }),
        if after != before { queued_images(st.1, r, before, after) } else { st.1 },
        if after != before { queued_buffers(st.2, r, before, after) } else { st.2 },
    )
}

/// The tracker after the moves, in order.
pub open spec fn spec_to_all(st: TrackState, moves: Seq<(TrackedResource, RenderResourceStates)>) -> TrackState
    decreases moves.len(),
{
    if moves.len() == 0 {
        st
    } else {
        spec_to(spec_to_all(st, moves.drop_last()), moves.last().0, moves.last().1)
    }
}

/// The unordered access state.
pub open spec fn uav_state() -> RenderResourceStates {
    RenderResourceStates { bits: RenderResourceStates::UNORDERED_ACCESS }
}

/// The tracker after a barrier between unordered accesses of `r`: it is
/// moved to unordered access and a barrier is queued either way.
pub open spec fn spec_uav(st: TrackState, r: TrackedResource) -> TrackState {
    let before = current_state(st.0, r);
    (
        st.0.insert(r.handle, TrackerEntry { resource: r, state: uav_state() }),
        queued_images(st.1, r, before, uav_state()),
        queued_buffers(st.2, r, before, uav_state()),
    )
}

/// The tracker after unordered access barriers for each resource, in order.
pub open spec fn spec_uav_all(st: TrackState, rs: Seq<TrackedResource>) -> TrackState
    decreases rs.len(),
{
    if rs.len() == 0 {
        st
    } else {
        spec_uav(spec_uav_all(st, rs.drop_last()), rs.last())
    }
}

/// The tracker with its waiting barriers handed out.
pub open spec fn flushed(st: TrackState) -> TrackState {
    (st.0, Map::empty(), Map::empty())
}

/// Barriers handed out together: image barriers, then buffer barriers.
pub struct BarrierBatch {
    pub images: Vec<ImageBarrier>,
    pub buffers: Vec<BufferBarrier>,
}

/// `b` holds exactly the barriers waiting in `images` and `buffers`, each
/// once, in some order.
pub open spec fn hands_out(images: Map<u64, ImageBarrier>, buffers: Map<u64, BufferBarrier>, b: BarrierBatch) -> bool {
    exists|is: Seq<(u64, ImageBarrier)>, bs: Seq<(u64, BufferBarrier)>| {
        &&& keys_unique(is)
        &&& keys_unique(bs)
        &&& #[trigger] assoc_map(is) == images
        &&& #[trigger] assoc_map(bs) == buffers
        &&& b.images@ == is.map_values(|p: (u64, ImageBarrier)| p.1)
        &&& b.buffers@ == bs.map_values(|p: (u64, BufferBarrier)| p.1)
    }
}

/// A batch with no barrier.
pub open spec fn batch_empty(b: BarrierBatch) -> bool {
    b.images@.len() == 0 && b.buffers@.len() == 0
}

/// The resource is tracked as itself, if at all.
pub open spec fn agrees(tracker: Map<u64, TrackerEntry>, r: TrackedResource) -> bool {
    tracker.contains_key(r.handle) ==> tracker[r.handle].resource == r
}

/// The resources of a command list, as the tracker must see them: each can
/// be tracked and agrees with the tracker, and a handle always names the
/// same resource.
pub open spec fn registry_ok(tracker: Map<u64, TrackerEntry>, reg: Seq<TrackedResource>) -> bool {
    &&& forall|a: int| 0 <= a < reg.len() ==> resource_ok(#[trigger] reg[a]) && agrees(tracker, reg[a])
    &&& forall|a: int, b: int| 0 <= a < reg.len() && 0 <= b < reg.len() && (#[trigger] reg[a]).handle == (#[trigger] reg[b]).handle
        ==> reg[a] == reg[b]
}

/// Tracking a resource of the registry in a new state keeps the registry
/// in agreement with the tracker.
proof fn lemma_registry_insert(tracker: Map<u64, TrackerEntry>, reg: Seq<TrackedResource>, r: TrackedResource, state: RenderResourceStates)
    requires
        registry_ok(tracker, reg),
        reg.contains(r),
    ensures
        registry_ok(tracker.insert(r.handle, TrackerEntry { resource: r, state }), reg),
{
    let t2 = tracker.insert(r.handle, TrackerEntry { resource: r, state });
    let k = choose|k: int| 0 <= k < reg.len() && reg[k] == r;
    assert forall|a: int| 0 <= a < reg.len() implies resource_ok(#[trigger] reg[a]) && agrees(t2, reg[a]) by {
        if reg[a].handle == r.handle {
            assert(reg[a] == reg[k]);
        }
    }
}

impl RenderCompileContext {
    /// Hand out every waiting barrier and empty the queues.
    pub fn flush(&mut self) -> (r: BarrierBatch)
        requires
            old(self).wf(),
        ensures
            final(self).wf(),
            track_state(*final(self)) == flushed(track_state(*old(self))),
            final(self).command_buffer == old(self).command_buffer,
            hands_out(old(self).pending_image_barriers@, old(self).pending_buffer_barriers@, r),
    {
        let ghost is = self.pending_image_barriers.items@;
        let ghost bs = self.pending_buffer_barriers.items@;
        let (images, buffers) = self.take_transitions();
        let r = BarrierBatch { images, buffers };
        assert(hands_out(old(self).pending_image_barriers@, old(self).pending_buffer_barriers@, r)) by {
            assert(assoc_map(is) == old(self).pending_image_barriers@);
            assert(assoc_map(bs) == old(self).pending_buffer_barriers@);
        }
        r
    }
}

/// A batch that hands out empty queues is empty.
proof fn lemma_empty_hands_out(b: BarrierBatch)
    requires
        hands_out(Map::empty(), Map::empty(), b),
    ensures
        batch_empty(b),
{
    let (is, bs) = choose|is: Seq<(u64, ImageBarrier)>, bs: Seq<(u64, BufferBarrier)>| {
        &&& keys_unique(is)
        &&& keys_unique(bs)
        &&& #[trigger] assoc_map(is) == Map::<u64, ImageBarrier>::empty()
        &&& #[trigger] assoc_map(bs) == Map::<u64, BufferBarrier>::empty()
        &&& b.images@ == is.map_values(|p: (u64, ImageBarrier)| p.1)
        &&& b.buffers@ == bs.map_values(|p: (u64, BufferBarrier)| p.1)
    };
    if is.len() > 0 {
        lemma_assoc_map_dom(is, is[0].0);
    }
    if bs.len() > 0 {
        lemma_assoc_map_dom(bs, bs[0].0);
    }
}

// ---------------------------------------------------------------------
// Commands

/// The commands of a list, as far as resource states go. Copies and
/// updates of buffers and textures alike move their resources the same way.
pub enum TrackedCommand {
    /// Move each resource to a state, in order.
    Transitions(Vec<(TrackedResource, RenderResourceStates)>),
    /// A barrier between unordered accesses of each resource, in order.
    Barriers(Vec<TrackedResource>),
    /// Copy from `src` into `dst`.
    Copy { src: TrackedResource, dst: TrackedResource },
    /// Write data into `resource`.
    Update { resource: TrackedResource },
    /// Begin a render pass on these render targets and depth target; the
    /// depth target is only read when `read_only_depth` is set.
    BeginRenderPass { targets: Vec<TrackedResource>, depth: Option<TrackedResource>, read_only_depth: bool },
    /// End the active render pass: its depth target, and the layout the
    /// pass left it in.
    EndRenderPass { depth: Option<TrackedResource>, depth_stencil_layout: i32 },
}

/// Barriers to record before a command's own work, and after it.
pub struct CommandBarriers {
    pub before: BarrierBatch,
    pub after: BarrierBatch,
}

/// The resources a command touches.
pub open spec fn command_resources(c: TrackedCommand) -> Seq<TrackedResource> {
    match c {
        TrackedCommand::Transitions(moves) => moves@.map_values(|m: (TrackedResource, RenderResourceStates)| m.0),
        TrackedCommand::Barriers(rs) => rs@,
        TrackedCommand::Copy { src, dst } => seq![src, dst],
        TrackedCommand::Update { resource } => seq![resource],
        TrackedCommand::BeginRenderPass { targets, depth, .. } => match depth {
            Some(d) => targets@.push(d),
            None => targets@,
        },
        TrackedCommand::EndRenderPass { depth, .. } => match depth {
            Some(d) => seq![d],
            None => Seq::empty(),
        },
    }
}

/// The resources of all commands, command by command.
pub open spec fn mentioned(cmds: Seq<TrackedCommand>) -> Seq<TrackedResource>
    decreases cmds.len(),
{
    if cmds.len() == 0 {
        Seq::empty()
    } else {
        mentioned(cmds.drop_last()) + command_resources(cmds.last())
    }
}

/// Commands whose moves are possible: explicit transitions go to states
/// the resource's kind allows, and render passes draw into textures.
pub open spec fn command_ok(c: TrackedCommand) -> bool {
    match c {
        TrackedCommand::Transitions(moves) => forall|k: int| 0 <= k < moves@.len()
            ==> state_allowed((#[trigger] moves@[k]).0.kind, moves@[k].1),
        TrackedCommand::BeginRenderPass { targets, depth, .. } => {
            &&& forall|k: int| 0 <= k < targets@.len() ==> (#[trigger] targets@[k]).kind is Texture
            &&& depth matches Some(d) ==> d.kind is Texture
        },
        _ => true,
    }
}

pub open spec fn copy_source() -> RenderResourceStates {
    RenderResourceStates { bits: RenderResourceStates::COPY_SOURCE }
}

pub open spec fn copy_dest() -> RenderResourceStates {
    RenderResourceStates { bits: RenderResourceStates::COPY_DEST }
}

pub open spec fn render_target() -> RenderResourceStates {
    RenderResourceStates { bits: RenderResourceStates::RENDER_TARGET }
}

/// The state a depth target is drawn in: read-only, or written.
pub open spec fn depth_state(read_only: bool) -> RenderResourceStates {
    if read_only {
        RenderResourceStates { bits: RenderResourceStates::DEPTH_READ }
    } else {
        RenderResourceStates { bits: RenderResourceStates::DEPTH_WRITE }
    }
}

/// Render targets moved to the render target state.
pub open spec fn target_moves(targets: Seq<TrackedResource>) -> Seq<(TrackedResource, RenderResourceStates)> {
    targets.map_values(|t: TrackedResource| (t, render_target()))
}

/// The tracker when a render pass begins: targets moved to the render
/// target state, then the depth target to its state.
pub open spec fn begin_state(st: TrackState, targets: Seq<TrackedResource>, depth: Option<TrackedResource>, read_only_depth: bool) -> TrackState {
    let s1 = spec_to_all(st, target_moves(targets));
    match depth {
        Some(d) => spec_to(s1, d, depth_state(read_only_depth)),
        None => s1,
    }
}

/// Whether ending a pass sends its depth target back: only when the pass
/// left it in a layout other than the depth-stencil attachment layout.
pub open spec fn restores_depth(depth: Option<TrackedResource>, layout: i32) -> bool {
    depth is Some && layout != vulkan::IMAGE_LAYOUT_DEPTH_STENCIL_ATTACHMENT_OPTIMAL
}

/// The tracker after a copy moved its resources to the copy states and
/// its barriers were handed out.
pub open spec fn copy_first(st: TrackState, src: TrackedResource, dst: TrackedResource) -> TrackState {
    spec_to(spec_to(st, src, copy_source()), dst, copy_dest())
}

/// The tracker after the copy's resources went back to their default
/// states.
pub open spec fn copy_second(st: TrackState, src: TrackedResource, dst: TrackedResource) -> TrackState {
    spec_to(spec_to(flushed(copy_first(st, src, dst)), src, src.default_state), dst, dst.default_state)
}

pub open spec fn update_first(st: TrackState, r: TrackedResource) -> TrackState {
    spec_to(st, r, copy_dest())
}

pub open spec fn update_second(st: TrackState, r: TrackedResource) -> TrackState {
    spec_to(flushed(update_first(st, r)), r, r.default_state)
}

/// The tracker after a command.
pub open spec fn spec_command_state(st: TrackState, c: TrackedCommand) -> TrackState {
    match c {
        TrackedCommand::Transitions(moves) => if moves@.len() > 0 { flushed(spec_to_all(st, moves@)) } else { st },
        TrackedCommand::Barriers(rs) => if rs@.len() > 0 { flushed(spec_uav_all(st, rs@)) } else { st },
        TrackedCommand::Copy { src, dst } => flushed(copy_second(st, src, dst)),
        TrackedCommand::Update { resource } => flushed(update_second(st, resource)),
        TrackedCommand::BeginRenderPass { targets, depth, read_only_depth } =>
            flushed(begin_state(st, targets@, depth, read_only_depth)),
        TrackedCommand::EndRenderPass { depth, depth_stencil_layout } => if restores_depth(depth, depth_stencil_layout) {
            flushed(spec_to(st, depth->0, depth->0.default_state))
        } else {
            st
        },
    }
}

/// The barriers a command hands out: those waiting at each point where it
/// records them, before or after its own work.
pub open spec fn command_out_ok(st: TrackState, c: TrackedCommand, out: CommandBarriers) -> bool {
    match c {
        TrackedCommand::Transitions(moves) => {
            &&& moves@.len() > 0 ==> hands_out(spec_to_all(st, moves@).1, spec_to_all(st, moves@).2, out.before)
            &&& moves@.len() == 0 ==> batch_empty(out.before)
            &&& batch_empty(out.after)
        },
        TrackedCommand::Barriers(rs) => {
            &&& rs@.len() > 0 ==> hands_out(spec_uav_all(st, rs@).1, spec_uav_all(st, rs@).2, out.before)
            &&& rs@.len() == 0 ==> batch_empty(out.before)
            &&& batch_empty(out.after)
        },
        TrackedCommand::Copy { src, dst } => {
            &&& hands_out(copy_first(st, src, dst).1, copy_first(st, src, dst).2, out.before)
            &&& hands_out(copy_second(st, src, dst).1, copy_second(st, src, dst).2, out.after)
        },
        TrackedCommand::Update { resource } => {
            &&& hands_out(update_first(st, resource).1, update_first(st, resource).2, out.before)
            &&& hands_out(update_second(st, resource).1, update_second(st, resource).2, out.after)
        },
        TrackedCommand::BeginRenderPass { targets, depth, read_only_depth } => {
            let s = begin_state(st, targets@, depth, read_only_depth);
            &&& hands_out(s.1, s.2, out.before)
            &&& batch_empty(out.after)
        },
        TrackedCommand::EndRenderPass { depth, depth_stencil_layout } => {
            &&& batch_empty(out.before)
            &&& restores_depth(depth, depth_stencil_layout) ==> {
                let s = spec_to(st, depth->0, depth->0.default_state);
                hands_out(s.1, s.2, out.after)
            }
            &&& !restores_depth(depth, depth_stencil_layout) ==> batch_empty(out.after)
        },
    }
}

/// The tracker after the commands, in order.
pub open spec fn spec_run(st: TrackState, cmds: Seq<TrackedCommand>) -> TrackState
    decreases cmds.len(),
{
    if cmds.len() == 0 {
        st
    } else {
        spec_command_state(spec_run(st, cmds.drop_last()), cmds.last())
    }
}

/// The copy states, the render target and depth states are allowed where
/// they are used.
proof fn lemma_states_allowed(kind: ResourceKind)
    ensures
        state_allowed(kind, copy_source()),
        state_allowed(kind, copy_dest()),
        kind is Texture ==> state_allowed(kind, render_target()),
        kind is Texture ==> state_allowed(kind, depth_state(true)),
        kind is Texture ==> state_allowed(kind, depth_state(false)),
{
    let cs: u32 = 0x800;
    let cd: u32 = 0x400;
    let rt: u32 = 0x4;
    let dr: u32 = 0x20;
    let dw: u32 = 0x10;
    assert(cs & 0x1 != 0x1 && cs & 0x2 != 0x2 && cs & 0x100 != 0x100 && cs & 0x200 != 0x200
        && cs & 0x4 != 0x4 && cs & 0x10 != 0x10 && cs & 0x20 != 0x20) by (bit_vector)
        requires cs == 0x800u32;
    assert(cd & 0x1 != 0x1 && cd & 0x2 != 0x2 && cd & 0x100 != 0x100 && cd & 0x200 != 0x200
        && cd & 0x4 != 0x4 && cd & 0x10 != 0x10 && cd & 0x20 != 0x20) by (bit_vector)
        requires cd == 0x400u32;
    assert(rt & 0x1 != 0x1 && rt & 0x2 != 0x2 && rt & 0x100 != 0x100 && rt & 0x200 != 0x200) by (bit_vector)
        requires rt == 0x4u32;
    assert(dr & 0x1 != 0x1 && dr & 0x2 != 0x2 && dr & 0x100 != 0x100 && dr & 0x200 != 0x200) by (bit_vector)
        requires dr == 0x20u32;
    assert(dw & 0x1 != 0x1 && dw & 0x2 != 0x2 && dw & 0x100 != 0x100 && dw & 0x200 != 0x200) by (bit_vector)
        requires dw == 0x10u32;
}

/// Each command's resources are among the resources of the list.
proof fn lemma_mentioned_contains(cmds: Seq<TrackedCommand>, i: int, k: int)
    requires
        0 <= i < cmds.len(),
        0 <= k < command_resources(cmds[i]).len(),
    ensures
        mentioned(cmds).contains(command_resources(cmds[i])[k]),
    decreases cmds.len(),
{
    let m = mentioned(cmds);
    let prefix = mentioned(cmds.drop_last());
    if i == cmds.len() - 1 {
        assert(m[prefix.len() + k] == command_resources(cmds[i])[k]);
    } else {
        lemma_mentioned_contains(cmds.drop_last(), i, k);
        let j = choose|j: int| 0 <= j < prefix.len() && prefix[j] == command_resources(cmds[i])[k];
        assert(m[j] == prefix[j]);
    }
}

/// The access types of the states commands move resources to: a copy
/// destination is written by a transfer and a copy source read by one, for
/// images and buffers alike; a render target is a color attachment write;
/// a depth target is a depth-stencil attachment read or write.
pub proof fn lemma_command_state_access()
    ensures
        spec_get_image_access_type(copy_dest()) == AccessType::TransferWrite,
        spec_get_buffer_access_type(copy_dest()) == AccessType::TransferWrite,
        spec_get_image_access_type(copy_source()) == AccessType::TransferRead,
        spec_get_buffer_access_type(copy_source()) == AccessType::TransferRead,
        spec_get_image_access_type(render_target()) == AccessType::ColorAttachmentWrite,
        spec_get_image_access_type(depth_state(true)) == AccessType::DepthStencilAttachmentRead,
        spec_get_image_access_type(depth_state(false)) == AccessType::DepthStencilAttachmentWrite,
{
    let cd: u32 = 0x400;
    let cs: u32 = 0x800;
    let rt: u32 = 0x4;
    let dr: u32 = 0x20;
    let dw: u32 = 0x10;
    assert(cd & 0x1 != 0x1 && cd & 0x2 != 0x2 && cd & 0x4 != 0x4 && cd & 0x8 != 0x8 && cd & 0x10 != 0x10
        && cd & 0x20 != 0x20 && cd & 0x40 != 0x40 && cd & 0x80 != 0x80 && cd & 0x200 != 0x200
        && cd & 0x400 == 0x400) by (bit_vector)
        requires cd == 0x400u32;
    assert(cs & 0x1 != 0x1 && cs & 0x2 != 0x2 && cs & 0x4 != 0x4 && cs & 0x8 != 0x8 && cs & 0x10 != 0x10
        && cs & 0x20 != 0x20 && cs & 0x40 != 0x40 && cs & 0x80 != 0x80 && cs & 0x200 != 0x200
        && cs & 0x400 != 0x400 && cs & 0x800 == 0x800) by (bit_vector)
        requires cs == 0x800u32;
    assert(rt & 0x4 == 0x4) by (bit_vector)
        requires rt == 0x4u32;
    assert(dr & 0x4 != 0x4 && dr & 0x10 != 0x10 && dr & 0x20 == 0x20) by (bit_vector)
        requires dr == 0x20u32;
    assert(dw & 0x4 != 0x4 && dw & 0x10 == 0x10) by (bit_vector)
        requires dw == 0x10u32;
}

/// What a move leaves: the resource tracked in its new state; when that
/// differs from its current state, a barrier for it queued from the access
/// of the current state to the access of the new one (an image barrier for
/// a texture, a buffer barrier for a buffer); otherwise the queues as they
/// were. No other handle changes.
pub proof fn lemma_move_effect(st: TrackState, r: TrackedResource, after: RenderResourceStates)
    ensures
        ({
            let s = spec_to(st, r, after);
            let before = current_state(st.0, r);
            &&& s.0.contains_key(r.handle)
            &&& s.0[r.handle] == (TrackerEntry { resource: r, state: after })
            &&& forall|h: u64| h != r.handle ==> s.0.contains_key(h) == st.0.contains_key(h) && s.0[h] == st.0[h]
            &&& forall|h: u64| h != r.handle ==> s.1.contains_key(h) == st.1.contains_key(h) && s.1[h] == st.1[h]
            &&& forall|h: u64| h != r.handle ==> s.2.contains_key(h) == st.2.contains_key(h) && s.2[h] == st.2[h]
            &&& before == after ==> s.1 == st.1 && s.2 == st.2
            &&& before != after && r.kind is Texture ==> {
                &&& s.1.contains_key(r.handle)
                &&& s.1[r.handle].image == r.kind->image
                &&& s.1[r.handle].previous_access == spec_get_image_access_type(before)
                &&& s.1[r.handle].next_access == spec_get_image_access_type(after)
                &&& s.2 == st.2
            }
            &&& before != after && r.kind is Buffer ==> {
                &&& s.2.contains_key(r.handle)
                &&& s.2[r.handle].buffer == r.kind->buffer
                &&& s.2[r.handle].previous_access == spec_get_buffer_access_type(before)
                &&& s.2[r.handle].next_access == spec_get_buffer_access_type(after)
                &&& s.1 == st.1
            }
        }),
{
}

/// Writing data into a resource makes it a copy destination first: when the
/// barriers before the write are handed out the resource is tracked in the
/// copy destination state, and unless it was in that state already, the
/// barrier queued for it leads into a transfer write. Afterwards it is sent
/// back to its default state, and unless that is the copy destination state,
/// the barrier for that leads out of the transfer write.
pub proof fn lemma_update_writes_as_transfer(st: TrackState, r: TrackedResource)
    ensures
        update_first(st, r).0.contains_key(r.handle),
        update_first(st, r).0[r.handle].resource == r,
        update_first(st, r).0[r.handle].state.bits == RenderResourceStates::COPY_DEST,
        current_state(st.0, r).bits != RenderResourceStates::COPY_DEST && r.kind is Buffer ==> {
            &&& update_first(st, r).2.contains_key(r.handle)
            &&& update_first(st, r).2[r.handle].next_access == AccessType::TransferWrite
        },
        current_state(st.0, r).bits != RenderResourceStates::COPY_DEST && r.kind is Texture ==> {
            &&& update_first(st, r).1.contains_key(r.handle)
            &&& update_first(st, r).1[r.handle].next_access == AccessType::TransferWrite
        },
        current_state(st.0, r).bits == RenderResourceStates::COPY_DEST ==> {
            &&& update_first(st, r).1 == st.1
            &&& update_first(st, r).2 == st.2
        },
        update_second(st, r).0[r.handle].state == r.default_state,
        r.default_state.bits != RenderResourceStates::COPY_DEST && r.kind is Buffer ==> {
            &&& update_second(st, r).2.contains_key(r.handle)
            &&& update_second(st, r).2[r.handle].previous_access == AccessType::TransferWrite
        },
        r.default_state.bits != RenderResourceStates::COPY_DEST && r.kind is Texture ==> {
            &&& update_second(st, r).1.contains_key(r.handle)
            &&& update_second(st, r).1[r.handle].previous_access == AccessType::TransferWrite
        },
{
    lemma_command_state_access();
    lemma_move_effect(st, r, copy_dest());
    lemma_move_effect(flushed(update_first(st, r)), r, r.default_state);
    assert(current_state(flushed(update_first(st, r)).0, r) == copy_dest());
}

/// A copy reads its source and writes its destination by transfers: when
/// the barriers before the copy are handed out the destination is tracked
/// in the copy destination state and, when it is another resource, the
/// source in the copy source state; the barriers queued for them (unless
/// they were in those states already) lead into a transfer read and a
/// transfer write. Afterwards both are back in their default states.
pub proof fn lemma_copy_reads_and_writes_as_transfer(st: TrackState, src: TrackedResource, dst: TrackedResource)
    ensures
        copy_first(st, src, dst).0[dst.handle].state.bits == RenderResourceStates::COPY_DEST,
        copy_first(st, src, dst).0[dst.handle].resource == dst,
        src.handle != dst.handle ==> copy_first(st, src, dst).0[src.handle].state.bits == RenderResourceStates::COPY_SOURCE,
        src.handle != dst.handle ==> copy_first(st, src, dst).0[src.handle].resource == src,
        src.handle != dst.handle && current_state(st.0, src).bits != RenderResourceStates::COPY_SOURCE ==> {
            &&& src.kind is Buffer ==> copy_first(st, src, dst).2.contains_key(src.handle)
                && copy_first(st, src, dst).2[src.handle].next_access == AccessType::TransferRead
            &&& src.kind is Texture ==> copy_first(st, src, dst).1.contains_key(src.handle)
                && copy_first(st, src, dst).1[src.handle].next_access == AccessType::TransferRead
        },
        src.handle != dst.handle && current_state(st.0, dst).bits != RenderResourceStates::COPY_DEST ==> {
            &&& dst.kind is Buffer ==> copy_first(st, src, dst).2.contains_key(dst.handle)
                && copy_first(st, src, dst).2[dst.handle].next_access == AccessType::TransferWrite
            &&& dst.kind is Texture ==> copy_first(st, src, dst).1.contains_key(dst.handle)
                && copy_first(st, src, dst).1[dst.handle].next_access == AccessType::TransferWrite
        },
        copy_second(st, src, dst).0[dst.handle].state == dst.default_state,
        src.handle != dst.handle ==> copy_second(st, src, dst).0[src.handle].state == src.default_state,
{
    lemma_command_state_access();
    let s1 = spec_to(st, src, copy_source());
    lemma_move_effect(st, src, copy_source());
    lemma_move_effect(s1, dst, copy_dest());
    let f = flushed(copy_first(st, src, dst));
    let s3 = spec_to(f, src, src.default_state);
    lemma_move_effect(f, src, src.default_state);
    lemma_move_effect(s3, dst, dst.default_state);
    if src.handle != dst.handle {
        assert(current_state(s1.0, dst) == current_state(st.0, dst));
    }
}

/// A handle names one resource throughout the list.
pub open spec fn handles_identify(rs: Seq<TrackedResource>) -> bool {
    forall|i: int, j: int| 0 <= i < rs.len() && 0 <= j < rs.len() && (#[trigger] rs[i]).handle == (#[trigger] rs[j]).handle
        ==> rs[i] == rs[j]
}

/// Moving render targets leaves a handle that is not a target as it was.
proof fn lemma_targets_frame(st: TrackState, targets: Seq<TrackedResource>, h: u64)
    requires
        forall|k: int| 0 <= k < targets.len() ==> (#[trigger] targets[k]).handle != h,
    ensures
        ({
            let s = spec_to_all(st, target_moves(targets));
            &&& s.0.contains_key(h) == st.0.contains_key(h) && s.0[h] == st.0[h]
            &&& s.1.contains_key(h) == st.1.contains_key(h) && s.1[h] == st.1[h]
            &&& s.2.contains_key(h) == st.2.contains_key(h) && s.2[h] == st.2[h]
        }),
    decreases targets.len(),
{
    if targets.len() > 0 {
        let ts = targets.drop_last();
        assert forall|k: int| 0 <= k < ts.len() implies (#[trigger] ts[k]).handle != h by {
            assert(ts[k] == targets[k]);
        }
        lemma_targets_frame(st, ts, h);
        assert(target_moves(targets).drop_last() =~= target_moves(ts));
        assert(targets[targets.len() - 1].handle != h);
        lemma_move_effect(spec_to_all(st, target_moves(ts)), targets.last(), render_target());
    }
}

/// Moving render targets to the render target state, in order, leaves each
/// of them tracked in that state.
proof fn lemma_targets_tracked(st: TrackState, targets: Seq<TrackedResource>)
    requires
        handles_identify(targets),
    ensures
        forall|k: int| 0 <= k < targets.len() ==> spec_to_all(st, target_moves(targets)).0.contains_key((#[trigger] targets[k]).handle)
            && spec_to_all(st, target_moves(targets)).0[targets[k].handle]
                == (TrackerEntry { resource: targets[k], state: render_target() }),
    decreases targets.len(),
{
    if targets.len() > 0 {
        let ts = targets.drop_last();
        let t = targets.last();
        let n = targets.len() - 1;
        assert(handles_identify(ts)) by {
            assert forall|i: int, j: int| 0 <= i < ts.len() && 0 <= j < ts.len() && (#[trigger] ts[i]).handle == (#[trigger] ts[j]).handle
                implies ts[i] == ts[j] by {
                assert(ts[i] == targets[i] && ts[j] == targets[j]);
            }
        }
        lemma_targets_tracked(st, ts);
        assert(target_moves(targets).drop_last() =~= target_moves(ts));
        let s1 = spec_to_all(st, target_moves(ts));
        lemma_move_effect(s1, t, render_target());
        assert forall|k: int| 0 <= k < targets.len() implies spec_to_all(st, target_moves(targets)).0.contains_key((#[trigger] targets[k]).handle)
            && spec_to_all(st, target_moves(targets)).0[targets[k].handle]
                == (TrackerEntry { resource: targets[k], state: render_target() }) by {
            if targets[k].handle == t.handle {
                assert(targets[k] == targets[n]);
            } else {
                assert(targets[k] == ts[k]);
            }
        }
    }
}

/// Moving render targets to the render target state, in order: each
/// texture among them that was not in that state has an image barrier into
/// a color attachment write waiting.
#[verifier::rlimit(30)]
proof fn lemma_targets_barriers(st: TrackState, targets: Seq<TrackedResource>)
    requires
        handles_identify(targets),
    ensures
        forall|k: int| 0 <= k < targets.len() && (#[trigger] targets[k]).kind is Texture
            && current_state(st.0, targets[k]) != render_target() ==> {
            &&& spec_to_all(st, target_moves(targets)).1.contains_key(targets[k].handle)
            &&& spec_to_all(st, target_moves(targets)).1[targets[k].handle].next_access == AccessType::ColorAttachmentWrite
        },
    decreases targets.len(),
{
    if targets.len() > 0 {
        let ts = targets.drop_last();
        let t = targets.last();
        let n = targets.len() - 1;
        assert(handles_identify(ts)) by {
            assert forall|i: int, j: int| 0 <= i < ts.len() && 0 <= j < ts.len() && (#[trigger] ts[i]).handle == (#[trigger] ts[j]).handle
                implies ts[i] == ts[j] by {
                assert(ts[i] == targets[i] && ts[j] == targets[j]);
            }
        }
        lemma_targets_barriers(st, ts);
        lemma_targets_tracked(st, ts);
        assert(target_moves(targets).drop_last() =~= target_moves(ts));
        let s1 = spec_to_all(st, target_moves(ts));
        let s = spec_to_all(st, target_moves(targets));
        lemma_move_effect(s1, t, render_target());
        lemma_command_state_access();
        if exists|j: int| 0 <= j < ts.len() && (#[trigger] ts[j]).handle == t.handle {
            let j = choose|j: int| 0 <= j < ts.len() && (#[trigger] ts[j]).handle == t.handle;
            assert(targets[j] == ts[j]);
            assert(targets[j] == targets[n]);
            assert(current_state(s1.0, t) == render_target());
        } else {
            lemma_targets_frame(st, ts, t.handle);
            assert(current_state(s1.0, t) == current_state(st.0, t));
        }
        assert forall|k: int| 0 <= k < targets.len() && (#[trigger] targets[k]).kind is Texture
            && current_state(st.0, targets[k]) != render_target() implies {
            &&& s.1.contains_key(targets[k].handle)
            &&& s.1[targets[k].handle].next_access == AccessType::ColorAttachmentWrite
        } by {
            if k < n {
                assert(targets[k] == ts[k]);
                if targets[k].handle == t.handle {
                    assert(targets[k] == targets[n]);
                }
            }
        }
    }
}

/// Beginning a render pass draws into its targets as color attachments and
/// into its depth target as a depth attachment: when the barriers before the
/// pass are handed out, each render target (other than the depth target) is
/// tracked in the render target state, and a texture that was not in it
/// has a barrier into a color attachment write waiting; the depth target is
/// tracked in the depth read state when it is only read and in the depth
/// write state otherwise, and (when it is not also a render target and was
/// in another state) has a barrier into a depth-stencil attachment read or
/// write waiting.
pub proof fn lemma_begin_pass_attachments(st: TrackState, targets: Seq<TrackedResource>, depth: Option<TrackedResource>, read_only_depth: bool)
    requires
        handles_identify(targets),
    ensures
        ({
            let s = begin_state(st, targets, depth, read_only_depth);
            &&& forall|k: int| 0 <= k < targets.len() && (depth matches Some(d) ==> d.handle != (#[trigger] targets[k]).handle) ==> {
                &&& s.0.contains_key(targets[k].handle)
                &&& s.0[targets[k].handle].state.bits == RenderResourceStates::RENDER_TARGET
            }
            &&& forall|k: int| 0 <= k < targets.len() && (depth matches Some(d) ==> d.handle != (#[trigger] targets[k]).handle)
                && targets[k].kind is Texture && current_state(st.0, targets[k]).bits != RenderResourceStates::RENDER_TARGET ==> {
                &&& s.1.contains_key(targets[k].handle)
                &&& s.1[targets[k].handle].next_access == AccessType::ColorAttachmentWrite
            }
            &&& depth matches Some(d) ==> {
                &&& s.0.contains_key(d.handle)
                &&& s.0[d.handle].state.bits == (if read_only_depth { RenderResourceStates::DEPTH_READ } else { RenderResourceStates::DEPTH_WRITE })
            }
            &&& depth matches Some(d) ==> (d.kind is Texture
                && (forall|k: int| 0 <= k < targets.len() ==> (#[trigger] targets[k]).handle != d.handle)
                && current_state(st.0, d) != depth_state(read_only_depth) ==> {
                &&& s.1.contains_key(d.handle)
                &&& s.1[d.handle].next_access == (if read_only_depth { AccessType::DepthStencilAttachmentRead } else { AccessType::DepthStencilAttachmentWrite })
            })
        }),
{
    lemma_targets_tracked(st, targets);
    lemma_targets_barriers(st, targets);
    lemma_command_state_access();
    let s1 = spec_to_all(st, target_moves(targets));
    match depth {
        Some(d) => {
            lemma_move_effect(s1, d, depth_state(read_only_depth));
            if forall|k: int| 0 <= k < targets.len() ==> (#[trigger] targets[k]).handle != d.handle {
                lemma_targets_frame(st, targets, d.handle);
                assert(current_state(s1.0, d) == current_state(st.0, d));
            }
        },
        None => {},
    }
}

/// Every barrier waiting when a batch is handed out is in the batch.
proof fn lemma_handed_out(images: Map<u64, ImageBarrier>, buffers: Map<u64, BufferBarrier>, b: BarrierBatch, h: u64)
    requires
        hands_out(images, buffers, b),
    ensures
        images.contains_key(h) ==> exists|k: int| 0 <= k < b.images@.len() && b.images@[k] == images[h],
        buffers.contains_key(h) ==> exists|k: int| 0 <= k < b.buffers@.len() && b.buffers@[k] == buffers[h],
{
    let (is, bs) = choose|is: Seq<(u64, ImageBarrier)>, bs: Seq<(u64, BufferBarrier)>| {
        &&& keys_unique(is)
        &&& keys_unique(bs)
        &&& #[trigger] assoc_map(is) == images
        &&& #[trigger] assoc_map(bs) == buffers
        &&& b.images@ == is.map_values(|p: (u64, ImageBarrier)| p.1)
        &&& b.buffers@ == bs.map_values(|p: (u64, BufferBarrier)| p.1)
    };
    lemma_assoc_map_dom(is, h);
    lemma_assoc_map_dom(bs, h);
    if images.contains_key(h) {
        let i = choose|i: int| 0 <= i < is.len() && is[i].0 == h;
        lemma_assoc_map_index(is, i);
        assert(b.images@[i] == images[h]);
    }
    if buffers.contains_key(h) {
        let i = choose|i: int| 0 <= i < bs.len() && bs[i].0 == h;
        lemma_assoc_map_index(bs, i);
        assert(b.buffers@[i] == buffers[h]);
    }
}

/// The barriers a compiled write of data into a resource hands out: unless
/// the resource already was a copy destination, those recorded before the
/// write hold a barrier for it into a transfer write (a buffer barrier for
/// a buffer, an image barrier for a texture); unless its default state is
/// the copy destination state, those recorded after the write hold one for
/// it out of the transfer write.
pub proof fn lemma_update_batches(st: TrackState, r: TrackedResource, out: CommandBarriers)
    requires
        command_out_ok(st, TrackedCommand::Update { resource: r }, out),
    ensures
        current_state(st.0, r).bits != RenderResourceStates::COPY_DEST && r.kind is Buffer ==> exists|k: int|
            0 <= k < out.before.buffers@.len() && out.before.buffers@[k].buffer == r.kind->buffer
                && out.before.buffers@[k].next_access == AccessType::TransferWrite,
        current_state(st.0, r).bits != RenderResourceStates::COPY_DEST && r.kind is Texture ==> exists|k: int|
            0 <= k < out.before.images@.len() && out.before.images@[k].image == r.kind->image
                && out.before.images@[k].next_access == AccessType::TransferWrite,
        r.default_state.bits != RenderResourceStates::COPY_DEST && r.kind is Buffer ==> exists|k: int|
            0 <= k < out.after.buffers@.len() && out.after.buffers@[k].buffer == r.kind->buffer
                && out.after.buffers@[k].previous_access == AccessType::TransferWrite,
        r.default_state.bits != RenderResourceStates::COPY_DEST && r.kind is Texture ==> exists|k: int|
            0 <= k < out.after.images@.len() && out.after.images@[k].image == r.kind->image
                && out.after.images@[k].previous_access == AccessType::TransferWrite,
{
    lemma_update_writes_as_transfer(st, r);
    lemma_move_effect(st, r, copy_dest());
    lemma_move_effect(flushed(update_first(st, r)), r, r.default_state);
    lemma_handed_out(update_first(st, r).1, update_first(st, r).2, out.before, r.handle);
    lemma_handed_out(update_second(st, r).1, update_second(st, r).2, out.after, r.handle);
}

/// The barriers a compiled copy between two resources hands out before the
/// copy: unless the source already was a copy source, a barrier for it into
/// a transfer read; unless the destination already was a copy destination,
/// a barrier for it into a transfer write.
pub proof fn lemma_copy_batches(st: TrackState, src: TrackedResource, dst: TrackedResource, out: CommandBarriers)
    requires
        command_out_ok(st, TrackedCommand::Copy { src, dst }, out),
        src.handle != dst.handle,
    ensures
        current_state(st.0, src).bits != RenderResourceStates::COPY_SOURCE && src.kind is Buffer ==> exists|k: int|
            0 <= k < out.before.buffers@.len() && out.before.buffers@[k].buffer == src.kind->buffer
                && out.before.buffers@[k].next_access == AccessType::TransferRead,
        current_state(st.0, src).bits != RenderResourceStates::COPY_SOURCE && src.kind is Texture ==> exists|k: int|
            0 <= k < out.before.images@.len() && out.before.images@[k].image == src.kind->image
                && out.before.images@[k].next_access == AccessType::TransferRead,
        current_state(st.0, dst).bits != RenderResourceStates::COPY_DEST && dst.kind is Buffer ==> exists|k: int|
            0 <= k < out.before.buffers@.len() && out.before.buffers@[k].buffer == dst.kind->buffer
                && out.before.buffers@[k].next_access == AccessType::TransferWrite,
        current_state(st.0, dst).bits != RenderResourceStates::COPY_DEST && dst.kind is Texture ==> exists|k: int|
            0 <= k < out.before.images@.len() && out.before.images@[k].image == dst.kind->image
                && out.before.images@[k].next_access == AccessType::TransferWrite,
{
    lemma_copy_reads_and_writes_as_transfer(st, src, dst);
    let s1 = spec_to(st, src, copy_source());
    lemma_move_effect(st, src, copy_source());
    lemma_move_effect(s1, dst, copy_dest());
    assert(current_state(s1.0, dst) == current_state(st.0, dst));
    lemma_handed_out(copy_first(st, src, dst).1, copy_first(st, src, dst).2, out.before, src.handle);
    lemma_handed_out(copy_first(st, src, dst).1, copy_first(st, src, dst).2, out.before, dst.handle);
}

/// Ending a render pass sends its depth target back to its default state
/// when the pass left it in a layout other than the writable depth-stencil
/// attachment layout, and otherwise changes nothing.
pub proof fn lemma_end_pass_restores_depth(st: TrackState, depth: Option<TrackedResource>, layout: i32)
    ensures
        depth is Some && layout != vulkan::IMAGE_LAYOUT_DEPTH_STENCIL_ATTACHMENT_OPTIMAL ==> ({
            let s = spec_command_state(st, TrackedCommand::EndRenderPass { depth, depth_stencil_layout: layout });
            let d = depth->0;
            &&& s.0.contains_key(d.handle)
            &&& s.0[d.handle] == (TrackerEntry { resource: d, state: d.default_state })
        }),
        depth is None || layout == vulkan::IMAGE_LAYOUT_DEPTH_STENCIL_ATTACHMENT_OPTIMAL
            ==> spec_command_state(st, TrackedCommand::EndRenderPass { depth, depth_stencil_layout: layout }) == st,
{
    match depth {
        Some(d) => lemma_move_effect(st, d, d.default_state),
        None => {},
    }
}

impl RenderCompileContext {
    /// Move a resource of the registry to a state.
    fn move_to(&mut self, r: &TrackedResource, after: RenderResourceStates, Ghost(reg): Ghost<Seq<TrackedResource>>)
        requires
            old(self).wf(),
            registry_ok(old(self).resource_tracker@, reg),
            reg.contains(*r),
            state_allowed(r.kind, after),
        ensures
            final(self).wf(),
            registry_ok(final(self).resource_tracker@, reg),
            track_state(*final(self)) == spec_to(track_state(*old(self)), *r, after),
            final(self).command_buffer == old(self).command_buffer,
    {
        proof {
            let k = choose|k: int| 0 <= k < reg.len() && reg[k] == *r;
            assert(resource_ok(reg[k]) && agrees(self.resource_tracker@, reg[k]));
            lemma_registry_insert(self.resource_tracker@, reg, *r, after);
        }
        self.add_transition_to(r, after);
    }

    /// Move resources of the registry to states, in order.
    fn move_all(&mut self, moves: &Vec<(TrackedResource, RenderResourceStates)>, Ghost(reg): Ghost<Seq<TrackedResource>>)
        requires
            old(self).wf(),
            registry_ok(old(self).resource_tracker@, reg),
            forall|k: int| 0 <= k < moves@.len() ==> reg.contains((#[trigger] moves@[k]).0),
            forall|k: int| 0 <= k < moves@.len() ==> state_allowed((#[trigger] moves@[k]).0.kind, moves@[k].1),
        ensures
            final(self).wf(),
            registry_ok(final(self).resource_tracker@, reg),
            track_state(*final(self)) == spec_to_all(track_state(*old(self)), moves@),
            final(self).command_buffer == old(self).command_buffer,
    {
        let mut i: usize = 0;
        assert(moves@.take(0) =~= Seq::<(TrackedResource, RenderResourceStates)>::empty());
        while i < moves.len()
            invariant
                i <= moves@.len(),
                self.wf(),
                registry_ok(self.resource_tracker@, reg),
                forall|k: int| 0 <= k < moves@.len() ==> reg.contains((#[trigger] moves@[k]).0),
                forall|k: int| 0 <= k < moves@.len() ==> state_allowed((#[trigger] moves@[k]).0.kind, moves@[k].1),
                track_state(*self) == spec_to_all(track_state(*old(self)), moves@.take(i as int)),
                self.command_buffer == old(self).command_buffer,
            decreases moves@.len() - i,
        {
            proof {
                assert(moves@.take(i + 1).drop_last() =~= moves@.take(i as int));
                assert(moves@.take(i + 1).last() == moves@[i as int]);
            }
            let m = &moves[i];
            self.move_to(&m.0, m.1, Ghost(reg));
            i += 1;
        }
        assert(moves@.take(i as int) =~= moves@);
    }

    /// Barriers between unordered accesses of resources of the registry, in
    /// order.
    fn uav_all(&mut self, rs: &Vec<TrackedResource>, Ghost(reg): Ghost<Seq<TrackedResource>>)
        requires
            old(self).wf(),
            registry_ok(old(self).resource_tracker@, reg),
            forall|k: int| 0 <= k < rs@.len() ==> reg.contains(#[trigger] rs@[k]),
        ensures
            final(self).wf(),
            registry_ok(final(self).resource_tracker@, reg),
            track_state(*final(self)) == spec_uav_all(track_state(*old(self)), rs@),
            final(self).command_buffer == old(self).command_buffer,
    {
        let mut i: usize = 0;
        assert(rs@.take(0) =~= Seq::<TrackedResource>::empty());
        while i < rs.len()
            invariant
                i <= rs@.len(),
                self.wf(),
                registry_ok(self.resource_tracker@, reg),
                forall|k: int| 0 <= k < rs@.len() ==> reg.contains(#[trigger] rs@[k]),
                track_state(*self) == spec_uav_all(track_state(*old(self)), rs@.take(i as int)),
                self.command_buffer == old(self).command_buffer,
            decreases rs@.len() - i,
        {
            proof {
                assert(rs@.take(i + 1).drop_last() =~= rs@.take(i as int));
                assert(rs@.take(i + 1).last() == rs@[i as int]);
                let r = rs@[i as int];
                let k = choose|k: int| 0 <= k < reg.len() && reg[k] == r;
                assert(resource_ok(reg[k]) && agrees(self.resource_tracker@, reg[k]));
                lemma_registry_insert(self.resource_tracker@, reg, r, uav_state());
            }
            self.add_uav_barrier(&rs[i]);
            i += 1;
        }
        assert(rs@.take(i as int) =~= rs@);
    }
}

/// A batch with no barrier.
fn empty_batch() -> (r: BarrierBatch)
    ensures
        batch_empty(r),
{
    BarrierBatch { images: Vec::new(), buffers: Vec::new() }
}

/// The moves of render targets to the render target state.
fn target_moves_of(targets: &Vec<TrackedResource>) -> (r: Vec<(TrackedResource, RenderResourceStates)>)
    ensures
        r@ == target_moves(targets@),
{
    let mut r: Vec<(TrackedResource, RenderResourceStates)> = Vec::new();
    let mut i: usize = 0;
    while i < targets.len()
        invariant
            i <= targets@.len(),
            r@ == target_moves(targets@.take(i as int)),
        decreases targets@.len() - i,
    {
        r.push((targets[i], RenderResourceStates { bits: RenderResourceStates::RENDER_TARGET }));
        i += 1;
        assert(r@ =~= target_moves(targets@.take(i as int)));
    }
    assert(targets@.take(i as int) =~= targets@);
    r
}

impl RenderCompileContext {
    /// Compile one command: move its resources and hand out the barriers
    /// to record before and after its own work.
    fn compile_command(&mut self, c: &TrackedCommand, Ghost(reg): Ghost<Seq<TrackedResource>>) -> (r: CommandBarriers)
        requires
            old(self).wf(),
            registry_ok(old(self).resource_tracker@, reg),
            forall|k: int| 0 <= k < command_resources(*c).len() ==> reg.contains(#[trigger] command_resources(*c)[k]),
            command_ok(*c),
        ensures
            final(self).wf(),
            registry_ok(final(self).resource_tracker@, reg),
            track_state(*final(self)) == spec_command_state(track_state(*old(self)), *c),
            command_out_ok(track_state(*old(self)), *c, r),
            final(self).command_buffer == old(self).command_buffer,
    {
        let ghost st = track_state(*self);
        let ghost res = command_resources(*c);
        match c {
            TrackedCommand::Transitions(moves) => {
                assert forall|k: int| 0 <= k < moves@.len() implies reg.contains((#[trigger] moves@[k]).0) by {
                    assert(res[k] == moves@[k].0);
                }
                self.move_all(moves, Ghost(reg));
                if moves.len() > 0 {
                    let before = self.flush();
                    CommandBarriers { before, after: empty_batch() }
                } else {
                    assert(moves@ =~= Seq::<(TrackedResource, RenderResourceStates)>::empty());
                    CommandBarriers { before: empty_batch(), after: empty_batch() }
                }
            },
            TrackedCommand::Barriers(rs) => {
                assert forall|k: int| 0 <= k < rs@.len() implies reg.contains(#[trigger] rs@[k]) by {
                    assert(res[k] == rs@[k]);
                }
                self.uav_all(rs, Ghost(reg));
                if rs.len() > 0 {
                    let before = self.flush();
                    CommandBarriers { before, after: empty_batch() }
                } else {
                    assert(rs@ =~= Seq::<TrackedResource>::empty());
                    CommandBarriers { before: empty_batch(), after: empty_batch() }
                }
            },
            TrackedCommand::Copy { src, dst } => {
                proof {
                    assert(reg.contains(res[0]) && reg.contains(res[1]));
                    lemma_states_allowed(src.kind);
                    lemma_states_allowed(dst.kind);
                    let a = choose|a: int| 0 <= a < reg.len() && reg[a] == *src;
                    let b = choose|b: int| 0 <= b < reg.len() && reg[b] == *dst;
                    assert(resource_ok(reg[a]) && resource_ok(reg[b]));
                }
                self.move_to(src, RenderResourceStates { bits: RenderResourceStates::COPY_SOURCE }, Ghost(reg));
                self.move_to(dst, RenderResourceStates { bits: RenderResourceStates::COPY_DEST }, Ghost(reg));
                let before = self.flush();
                self.move_to(src, src.default_state, Ghost(reg));
                self.move_to(dst, dst.default_state, Ghost(reg));
                let after = self.flush();
                CommandBarriers { before, after }
            },
            TrackedCommand::Update { resource } => {
                proof {
                    assert(reg.contains(res[0]));
                    lemma_states_allowed(resource.kind);
                    let a = choose|a: int| 0 <= a < reg.len() && reg[a] == *resource;
                    assert(resource_ok(reg[a]));
                }
                self.move_to(resource, RenderResourceStates { bits: RenderResourceStates::COPY_DEST }, Ghost(reg));
                let before = self.flush();
                self.move_to(resource, resource.default_state, Ghost(reg));
                let after = self.flush();
                CommandBarriers { before, after }
            },
            TrackedCommand::BeginRenderPass { targets, depth, read_only_depth } => {
                let moves = target_moves_of(targets);
                assert forall|k: int| 0 <= k < moves@.len() implies reg.contains((#[trigger] moves@[k]).0) by {
                    assert(res[k] == targets@[k]);
                }
                assert forall|k: int| 0 <= k < moves@.len() implies state_allowed((#[trigger] moves@[k]).0.kind, moves@[k].1) by {
                    assert(targets@[k].kind is Texture);
                    lemma_states_allowed(targets@[k].kind);
                }
                self.move_all(&moves, Ghost(reg));
                match depth {
                    Some(d) => {
                        proof {
                            assert(res[targets@.len() as int] == *d);
                            lemma_states_allowed(d.kind);
                        }
                        let state = if *read_only_depth {
                            RenderResourceStates { bits: RenderResourceStates::DEPTH_READ }
                        } else {
                            RenderResourceStates { bits: RenderResourceStates::DEPTH_WRITE }
                        };
                        self.move_to(d, state, Ghost(reg));
                    },
                    None => {},
                }
                let before = self.flush();
                CommandBarriers { before, after: empty_batch() }
            },
            TrackedCommand::EndRenderPass { depth, depth_stencil_layout } => {
                match depth {
                    Some(d) => {
                        if *depth_stencil_layout != vulkan::IMAGE_LAYOUT_DEPTH_STENCIL_ATTACHMENT_OPTIMAL {
                            proof {
                                assert(res[0] == *d);
                                let a = choose|a: int| 0 <= a < reg.len() && reg[a] == *d;
                                assert(resource_ok(reg[a]));
                            }
                            self.move_to(d, d.default_state, Ghost(reg));
                            let after = self.flush();
                            CommandBarriers { before: empty_batch(), after }
                        } else {
                            CommandBarriers { before: empty_batch(), after: empty_batch() }
                        }
                    },
                    None => CommandBarriers { before: empty_batch(), after: empty_batch() },
                }
            },
        }
    }
}

impl RenderCompileContext {
    /// Compile a command list: open the native list unless a batch is being
    /// compiled into it already (then `fresh` is `None`, else the buffer to
    /// open it with), compile each command in order, send every tracked
    /// resource back to its default state, and close the native list again
    /// if it was opened here. For each command it gives the barriers to
    /// record before and after the command's own work, then the barriers
    /// that restore the default states. Afterwards no resource is tracked,
    /// so each is in its default state, and no barrier is waiting.
    pub fn compile_list(&mut self, native: &mut CommandListState, commands: &Vec<TrackedCommand>, fresh: Option<u64>) -> (r: (Vec<CommandBarriers>, BarrierBatch))
        requires
            old(self).wf(),
            old(native).wf(),
            fresh is None <==> (old(native).command_buffer is Some && old(native).opened && old(self).command_buffer is Some),
            fresh is Some ==> {
                &&& !old(native).opened
                &&& old(native).command_buffer is None
                &&& old(native).list_type == RenderCommandListType::Universal
                &&& old(self).command_buffer is None
            },
            registry_ok(old(self).resource_tracker@, mentioned(commands@)),
            forall|i: int| 0 <= i < commands@.len() ==> command_ok(#[trigger] commands@[i]),
        ensures
            final(self).wf(),
            r.0@.len() == commands@.len(),
            forall|i: int| 0 <= i < commands@.len() ==> command_out_ok(
                spec_run(track_state(*old(self)), commands@.take(i)),
                #[trigger] commands@[i],
                r.0@[i],
            ),
            ({
                let end = spec_run(track_state(*old(self)), commands@);
                hands_out(restored_images(end.0, end.1), restored_buffers(end.0, end.2), r.1)
            }),
            final(self).resource_tracker@ == Map::<u64, TrackerEntry>::empty(),
            final(self).pending_image_barriers@ == Map::<u64, ImageBarrier>::empty(),
            final(self).pending_buffer_barriers@ == Map::<u64, BufferBarrier>::empty(),
            forall|res: TrackedResource| #[trigger] current_state(final(self).resource_tracker@, res) == res.default_state,
            match fresh {
                Some(b) => {
                    &&& *final(native) == CommandListState::spec_close(CommandListState::spec_open(*old(native), b))
                    &&& final(self).command_buffer is None
                },
                None => {
                    &&& *final(native) == *old(native)
                    &&& final(self).command_buffer == old(self).command_buffer
                },
            },
    {
        let batch = self.is_batch(native);
        match fresh {
            Some(b) => self.begin_compile(native, b),
            None => {},
        }
        let ghost native_open = *native;
        let ghost command_buffer = self.command_buffer;
        let ghost reg = mentioned(commands@);
        let ghost st0 = track_state(*self);
        let mut outs: Vec<CommandBarriers> = Vec::new();
        let mut i: usize = 0;
        assert(commands@.take(0) =~= Seq::<TrackedCommand>::empty());
        while i < commands.len()
            invariant
                i <= commands@.len(),
                self.wf(),
                reg == mentioned(commands@),
                registry_ok(self.resource_tracker@, reg),
                forall|j: int| 0 <= j < commands@.len() ==> command_ok(#[trigger] commands@[j]),
                track_state(*self) == spec_run(st0, commands@.take(i as int)),
                outs@.len() == i,
                forall|j: int| 0 <= j < i ==> command_out_ok(spec_run(st0, commands@.take(j)), #[trigger] commands@[j], outs@[j]),
                self.command_buffer == command_buffer,
                *native == native_open,
            decreases commands@.len() - i,
        {
            proof {
                assert forall|k: int| 0 <= k < command_resources(commands@[i as int]).len()
                    implies reg.contains(#[trigger] command_resources(commands@[i as int])[k]) by {
                    lemma_mentioned_contains(commands@, i as int, k);
                }
                assert(commands@.take(i + 1).drop_last() =~= commands@.take(i as int));
                assert(commands@.take(i + 1).last() == commands@[i as int]);
            }
            let out = self.compile_command(&commands[i], Ghost(reg));
            outs.push(out);
            i += 1;
        }
        assert(commands@.take(i as int) =~= commands@);
        let ghost end = track_state(*self);
        let (images, buffers) = self.apply_default_state();
        let defaults = BarrierBatch { images, buffers };
        assert(hands_out(restored_images(end.0, end.1), restored_buffers(end.0, end.2), defaults));
        if !batch {
            self.finish_compile(native);
        }
        (outs, defaults)
    }
}

/// The tracker a list of a batch starts from: the context's for the first
/// list, an empty one for the later lists (each list ends with every
/// resource back in its default state).
pub open spec fn batch_start(st: TrackState, k: int) -> TrackState {
    if k == 0 { st } else { (Map::empty(), Map::empty(), Map::empty()) }
}

/// The barriers a compiled list gives, from a tracker state.
pub open spec fn list_out_ok(st: TrackState, cmds: Seq<TrackedCommand>, out: (Vec<CommandBarriers>, BarrierBatch)) -> bool {
    &&& out.0@.len() == cmds.len()
    &&& forall|i: int| 0 <= i < cmds.len() ==> command_out_ok(spec_run(st, cmds.take(i)), #[trigger] cmds[i], out.0@[i])
    &&& ({
        let end = spec_run(st, cmds);
        hands_out(restored_images(end.0, end.1), restored_buffers(end.0, end.2), out.1)
    })
}

impl RenderCompileContext {
    /// Compile several command lists as one batch into the native list,
    /// which is opened with `buffer` first and closed at the end.
    pub fn compile_lists(&mut self, native: &mut CommandListState, lists: &Vec<Vec<TrackedCommand>>, buffer: u64) -> (r: Vec<(Vec<CommandBarriers>, BarrierBatch)>)
        requires
            old(self).wf(),
            old(native).wf(),
            !old(native).opened,
            old(native).command_buffer is None,
            old(native).list_type == RenderCommandListType::Universal,
            old(self).command_buffer is None,
            forall|k: int| 0 <= k < lists@.len()
                ==> registry_ok((#[trigger] batch_start(track_state(*old(self)), k)).0, mentioned(lists@[k]@)),
            forall|k: int, i: int| 0 <= k < lists@.len() && 0 <= i < lists@[k]@.len() ==> command_ok(#[trigger] lists@[k]@[i]),
        ensures
            final(self).wf(),
            r@.len() == lists@.len(),
            forall|k: int| 0 <= k < lists@.len() ==> list_out_ok(batch_start(track_state(*old(self)), k), lists@[k]@, #[trigger] r@[k]),
            lists@.len() > 0 ==> track_state(*final(self)) == batch_start(track_state(*old(self)), 1),
            lists@.len() == 0 ==> track_state(*final(self)) == track_state(*old(self)),
            *final(native) == CommandListState::spec_close(CommandListState::spec_open(*old(native), buffer)),
            final(self).command_buffer is None,
    {
        self.begin_compile(native, buffer);
        let ghost opened = *native;
        let ghost st0 = track_state(*old(self));
        let mut outs: Vec<(Vec<CommandBarriers>, BarrierBatch)> = Vec::new();
        let mut k: usize = 0;
        while k < lists.len()
            invariant
                k <= lists@.len(),
                self.wf(),
                st0 == track_state(*old(self)),
                track_state(*self) == batch_start(st0, if k == 0 { 0 } else { 1 }),
                forall|j: int| 0 <= j < lists@.len()
                    ==> registry_ok((#[trigger] batch_start(st0, j)).0, mentioned(lists@[j]@)),
                forall|j: int, i: int| 0 <= j < lists@.len() && 0 <= i < lists@[j]@.len() ==> command_ok(#[trigger] lists@[j]@[i]),
                outs@.len() == k,
                forall|j: int| 0 <= j < k ==> list_out_ok(batch_start(st0, j), lists@[j]@, #[trigger] outs@[j]),
                *native == opened,
                opened.command_buffer is Some && opened.opened && opened.wf(),
                self.command_buffer == Some(buffer),
            decreases lists@.len() - k,
        {
            assert(batch_start(st0, k as int) == track_state(*self));
            let out = self.compile_list(native, &lists[k], None);
            assert(list_out_ok(batch_start(st0, k as int), lists@[k as int]@, out));
            outs.push(out);
            k += 1;
            assert(track_state(*self) =~= batch_start(st0, 1));
        }
        self.finish_compile(native);
        outs
    }
}

} // verus!
