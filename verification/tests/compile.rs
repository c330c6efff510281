use render_hal_vk::assoc::AssocList;
use render_hal_vk::command_list::CommandBufferPool;
use render_hal_vk::command_list::CommandBufferState;
use render_hal_vk::command_list::CommandListState;
use render_hal_vk::command_list::DeviceQueues;
use render_hal_vk::command_list::NoQueueForList;
use render_hal_vk::command_list::submit_command_list;
use render_hal_vk::compile::make_image_barrier;
use render_hal_vk::compile::update_buffer_chunks;
use render_hal_vk::compile::DrawStateCache;
use render_hal_vk::compile::DrawStateInts;
use render_hal_vk::compile::RenderCompileContext;
use render_hal_vk::commands::TrackedCommand;
use render_hal_vk::compile::ResourceKind;
use render_hal_vk::compile::ScissorRect;
use render_hal_vk::compile::TrackedResource;
use render_hal_vk::compile::UPDATE_CHUNK_LIMIT;
use render_hal_vk::device::RenderCommandListType;
use render_hal_vk::format::RenderFormat;
use render_hal_vk::image::RenderBindFlags;
use render_hal_vk::image::RenderTextureDesc;
use render_hal_vk::image::RenderTextureType;
use render_hal_vk::states::AccessType;
use render_hal_vk::states::BarrierLayout;
use render_hal_vk::states::RenderResourceStates;

fn states(bits: u32) -> RenderResourceStates {
    RenderResourceStates { bits }
}

fn texture(handle: u64, texture_type: RenderTextureType, elements: u16) -> TrackedResource {
    TrackedResource {
        handle,
        default_state: states(RenderResourceStates::PIXEL_SHADER_RESOURCE),
        kind: ResourceKind::Texture {
            image: 100 + handle,
            desc: RenderTextureDesc {
                texture_type,
                bind_flags: RenderBindFlags { bits: RenderBindFlags::SHADER_RESOURCE },
                format: RenderFormat::R8g8b8a8Unorm,
                width: 16,
                height: 16,
                depth: 1,
                levels: 3,
                elements,
            },
        },
    }
}

fn buffer(handle: u64) -> TrackedResource {
    TrackedResource {
        handle,
        default_state: states(RenderResourceStates::COMMON),
        kind: ResourceKind::Buffer { buffer: 200 + handle, size: 4096 },
    }
}

#[test]
fn assoc_list_reads_back_what_was_written() {
    let mut list: AssocList<u32> = AssocList::new();
    list.insert(5, 50);
    list.insert(6, 60);
    list.insert(5, 55);
    assert_eq!(list.len(), 2);
    assert_eq!(list.get(5), Some(55));
    assert_eq!(list.get(6), Some(60));
    assert_eq!(list.get(7), None);
    assert_eq!(list.index_of(6), Some(1));
    list.clear();
    assert_eq!(list.get(5), None);
}

#[test]
fn transition_queues_a_barrier_and_tracks_the_state() {
    let mut ctx = RenderCompileContext::new();
    let r = texture(1, RenderTextureType::Tex2d, 1);
    let before = ctx.add_transition_to(&r, states(RenderResourceStates::RENDER_TARGET));
    assert_eq!(before.bits, RenderResourceStates::PIXEL_SHADER_RESOURCE);
    let again = ctx.add_transition_to(&r, states(RenderResourceStates::RENDER_TARGET));
    assert_eq!(again.bits, RenderResourceStates::RENDER_TARGET);
    let (images, buffers) = ctx.take_transitions();
    assert_eq!(images.len(), 1);
    assert!(buffers.is_empty());
    let b = images[0];
    assert_eq!(b.image, 101);
    assert_eq!(b.previous_access, AccessType::AnyShaderReadOther);
    assert_eq!(b.next_access, AccessType::ColorAttachmentWrite);
    assert_eq!(b.next_layout, BarrierLayout::Optimal);
    assert_eq!((b.level_count, b.layer_count), (3, 1));
    let (images, _) = ctx.take_transitions();
    assert!(images.is_empty());
}

#[test]
fn cube_barriers_cover_six_layers_per_element() {
    let r = texture(2, RenderTextureType::Cube, 2);
    if let ResourceKind::Texture { image, desc } = r.kind {
        let b = make_image_barrier(
            image,
            &desc,
            states(RenderResourceStates::COMMON),
            states(RenderResourceStates::COPY_DEST),
        );
        assert_eq!(b.layer_count, 12);
        assert_eq!(b.previous_access, AccessType::General);
        assert_eq!(b.next_access, AccessType::TransferWrite);
    } else {
        unreachable!();
    }
}

#[test]
fn later_barrier_for_a_resource_replaces_the_earlier() {
    let mut ctx = RenderCompileContext::new();
    let r = buffer(3);
    ctx.add_transition_to(&r, states(RenderResourceStates::COPY_DEST));
    ctx.add_transition_to(&r, states(RenderResourceStates::VERTEX_AND_CONSTANT_BUFFER));
    let (images, buffers) = ctx.take_transitions();
    assert!(images.is_empty());
    assert_eq!(buffers.len(), 1);
    assert_eq!(buffers[0].previous_access, AccessType::TransferWrite);
    assert_eq!(buffers[0].buffer, 203);
    assert_eq!((buffers[0].offset, buffers[0].size), (0, 4096));
}

#[test]
fn uav_barrier_is_queued_even_when_already_unordered() {
    let mut ctx = RenderCompileContext::new();
    let r = buffer(4);
    ctx.add_uav_barrier(&r);
    ctx.take_transitions();
    let before = ctx.add_uav_barrier(&r);
    assert_eq!(before.bits, RenderResourceStates::UNORDERED_ACCESS);
    let (_, buffers) = ctx.take_transitions();
    assert_eq!(buffers.len(), 1);
    assert_eq!(buffers[0].previous_access, buffers[0].next_access);
}

#[test]
fn restoring_sends_resources_back_to_default() {
    let mut ctx = RenderCompileContext::new();
    let t = texture(5, RenderTextureType::Tex2d, 1);
    let b = buffer(6);
    ctx.add_transition_to(&t, states(RenderResourceStates::RENDER_TARGET));
    ctx.add_transition_to(&b, states(RenderResourceStates::COMMON));
    ctx.take_transitions();
    ctx.restore_default_states();
    assert_eq!(ctx.resource_tracker.len(), 0);
    let (images, buffers) = ctx.take_transitions();
    assert_eq!(images.len(), 1);
    assert_eq!(images[0].next_access, AccessType::AnyShaderReadOther);
    assert!(buffers.is_empty());
    let before = ctx.add_transition_to(&t, states(RenderResourceStates::COPY_SOURCE));
    assert_eq!(before.bits, RenderResourceStates::PIXEL_SHADER_RESOURCE);
}

#[test]
fn compiling_opens_and_closes_the_native_list() {
    let mut ctx = RenderCompileContext::new();
    let mut native = CommandListState::new(RenderCommandListType::Universal);
    assert!(!ctx.is_batch(&native));
    ctx.begin_compile(&mut native, 77);
    assert!(ctx.is_batch(&native));
    assert_eq!(native.command_buffer, Some(77));
    ctx.finish_compile(&mut native);
    assert!(!native.opened);
    assert_eq!(ctx.command_buffer, None);
    assert_eq!(native.submit(&vec![], &vec![], None, 0).command_buffer, 77);
    assert!(native.needs_buffer());
}

#[test]
fn update_is_split_into_chunks() {
    let chunks = update_buffer_chunks(1000, 16, 2 * UPDATE_CHUNK_LIMIT + 5);
    assert_eq!(chunks.len(), 3);
    assert_eq!((chunks[0].data_offset, chunks[0].dst_offset, chunks[0].size), (1000, 16, UPDATE_CHUNK_LIMIT));
    assert_eq!(chunks[1].dst_offset, 16 + UPDATE_CHUNK_LIMIT as u64);
    assert_eq!((chunks[2].data_offset, chunks[2].size), (1000 + 2 * UPDATE_CHUNK_LIMIT, 5));
    let last = chunks[2];
    assert_eq!(last.dst_offset + last.size as u64, 16 + (2 * UPDATE_CHUNK_LIMIT + 5) as u64);
    assert!(update_buffer_chunks(0, 0, 0).is_empty());
    assert_eq!(update_buffer_chunks(0, 0, UPDATE_CHUNK_LIMIT).len(), 1);
}

#[test]
fn draw_state_sets_only_what_changed_from_the_first() {
    let mut cache = DrawStateCache::new();
    let rect = ScissorRect { x: 0, y: 0, width: 10, height: 10 };
    let first = cache.apply(DrawStateInts { scissor: Some(rect), stencil_ref: 1 });
    assert_eq!(first.set_scissor, Some(rect));
    assert_eq!(first.set_stencil_ref, Some(1));
    let same = cache.apply(DrawStateInts { scissor: Some(rect), stencil_ref: 1 });
    assert_eq!(same.set_scissor, None);
    assert_eq!(same.set_stencil_ref, None);
    let other = ScissorRect { x: 1, y: 0, width: 10, height: 10 };
    let changed = cache.apply(DrawStateInts { scissor: Some(other), stencil_ref: 2 });
    assert_eq!(changed.set_scissor, Some(other));
    assert_eq!(changed.set_stencil_ref, Some(2));
    let none = cache.apply(DrawStateInts { scissor: None, stencil_ref: 1 });
    assert_eq!(none.set_scissor, None);
}

#[test]
fn command_buffer_pool_reuses_after_reset() {
    let mut pool = CommandBufferPool::new();
    assert!(pool.needs_new_buffer());
    assert_eq!(pool.allocate(Some(10)), 10);
    assert_eq!(pool.allocate(Some(11)), 11);
    pool.reset();
    assert!(!pool.needs_new_buffer());
    assert_eq!(pool.allocate(None), 10);
}

#[test]
fn command_buffer_state_tracks_recording_and_flight() {
    let mut buffer = CommandBufferState::new(3);
    assert!(!buffer.is_open());
    buffer.open(0);
    assert!(buffer.is_open());
    buffer.close();
    buffer.submitted(0, 5);
    assert!(buffer.in_flight(4));
    assert!(!buffer.in_flight(5));
}

#[test]
fn command_list_cycle_hands_out_its_buffer() {
    let mut list = CommandListState::new(RenderCommandListType::Universal);
    assert!(list.needs_buffer());
    assert_eq!(list.open(42), 42);
    assert!(list.is_open());
    list.close();
    assert!(!list.is_open());
    let submission = list.submit(&vec![5, 6], &vec![9], Some(3), 0x400);
    assert_eq!(submission.command_buffer, 42);
    assert_eq!(submission.wait_semaphores, vec![5, 6]);
    assert_eq!(submission.wait_stages, vec![0x400, 0x400]);
    assert_eq!(submission.signal_semaphores, vec![9]);
    assert_eq!(submission.fence, 3);
    assert_eq!(list.command_buffer, None);
    assert!(list.needs_buffer());
    assert_eq!(list.open(43), 43);
    list.close();
    assert_eq!(list.submit(&vec![], &vec![], None, 0).fence, 0);
}

#[test]
fn default_states_are_applied_once() {
    let mut ctx = RenderCompileContext::new();
    let t = texture(1, RenderTextureType::Tex2d, 1);
    let b = buffer(3);
    let idle = buffer(4);
    ctx.add_transition_to(&t, states(RenderResourceStates::RENDER_TARGET));
    ctx.add_transition_to(&b, states(RenderResourceStates::COPY_DEST));
    ctx.add_transition_to(&idle, states(RenderResourceStates::COMMON));
    let (queued_images, queued_buffers) = ctx.take_transitions();
    assert_eq!((queued_images.len(), queued_buffers.len()), (1, 1));

    let (images, buffers) = ctx.apply_default_state();
    assert_eq!(images.len(), 1);
    assert_eq!(images[0].image, 101);
    assert_eq!(images[0].previous_access, AccessType::ColorAttachmentWrite);
    assert_eq!(images[0].next_access, AccessType::AnyShaderReadOther);
    assert_eq!(buffers.len(), 1);
    assert_eq!(buffers[0].buffer, 203);
    assert_eq!(buffers[0].previous_access, AccessType::TransferWrite);
    assert!(ctx.resource_tracker.items.is_empty());
    assert!(ctx.pending_image_barriers.items.is_empty());
    assert!(ctx.pending_buffer_barriers.items.is_empty());

    let (images, buffers) = ctx.apply_default_state();
    assert!(images.is_empty() && buffers.is_empty());
}

#[test]
fn pool_hands_out_each_buffer_once_between_resets() {
    let mut pool = CommandBufferPool::new();
    let mut handed = vec![];
    for fresh in [10u64, 11, 12] {
        handed.push(pool.allocate(Some(fresh)));
    }
    assert_eq!(handed, vec![10, 11, 12]);
    pool.reset();
    let mut again = vec![];
    for _ in 0..3 {
        again.push(pool.allocate(None));
    }
    assert_eq!(again, vec![10, 11, 12]);
    assert!(pool.needs_new_buffer());
    assert_eq!(pool.allocate(Some(13)), 13);
}

#[test]
fn lists_go_to_the_queue_of_their_type() {
    let queues = DeviceQueues { universal: Some(1), compute: None, transfer: Some(3) };
    let mut present = CommandListState::new(RenderCommandListType::Present);
    present.open(50);
    present.close();
    let (queue, submission) = submit_command_list(&queues, &mut present).ok().unwrap();
    assert_eq!(queue, 1);
    assert_eq!(submission.command_buffer, 50);
    assert!(submission.wait_semaphores.is_empty() && submission.signal_semaphores.is_empty());
    assert_eq!(submission.fence, 0);
    assert_eq!(present.command_buffer, None);

    let mut compute = CommandListState::new(RenderCommandListType::Compute);
    compute.open(60);
    compute.close();
    assert_eq!(submit_command_list(&queues, &mut compute).err(), Some(NoQueueForList));
    assert_eq!(compute.command_buffer, Some(60));
}

#[test]
fn a_list_hands_out_its_barriers_and_restores_defaults() {
    let mut ctx = RenderCompileContext::new();
    let mut native = CommandListState::new(RenderCommandListType::Universal);
    let src = buffer(3);
    let dst = buffer(4);
    let target = texture(1, RenderTextureType::Tex2d, 1);
    let commands = vec![
        TrackedCommand::Copy { src, dst },
        TrackedCommand::Transitions(vec![(target, states(RenderResourceStates::RENDER_TARGET))]),
        TrackedCommand::Transitions(vec![]),
        TrackedCommand::Update { resource: src },
    ];
    let (outs, defaults) = ctx.compile_list(&mut native, &commands, Some(9));
    assert_eq!(outs.len(), 4);
    assert_eq!(outs[0].before.buffers.len(), 2);
    assert_eq!(outs[0].before.buffers[0].next_access, AccessType::TransferRead);
    assert_eq!(outs[0].before.buffers[1].next_access, AccessType::TransferWrite);
    assert_eq!(outs[0].after.buffers.len(), 2);
    assert!(outs[0].after.images.is_empty());
    assert_eq!(outs[1].before.images.len(), 1);
    assert_eq!(outs[1].before.images[0].next_access, AccessType::ColorAttachmentWrite);
    assert!(outs[1].after.images.is_empty() && outs[1].after.buffers.is_empty());
    assert!(outs[2].before.images.is_empty() && outs[2].before.buffers.is_empty());
    assert_eq!(outs[3].before.buffers.len(), 1);
    assert_eq!(outs[3].after.buffers.len(), 1);
    assert_eq!(defaults.images.len(), 1);
    assert_eq!(defaults.images[0].image, 101);
    assert_eq!(defaults.images[0].next_access, AccessType::AnyShaderReadOther);
    assert!(defaults.buffers.is_empty());
    assert!(ctx.resource_tracker.items.is_empty());
    assert!(!native.opened);
    assert_eq!(native.command_buffer, Some(9));
    assert_eq!(ctx.command_buffer, None);
}

#[test]
fn render_passes_move_targets_and_restore_read_only_depth() {
    let mut ctx = RenderCompileContext::new();
    let mut native = CommandListState::new(RenderCommandListType::Universal);
    let color = texture(1, RenderTextureType::Tex2d, 1);
    let depth = texture(2, RenderTextureType::Tex2d, 1);
    let pass = vec![
        TrackedCommand::BeginRenderPass { targets: vec![color], depth: Some(depth), read_only_depth: true },
        TrackedCommand::EndRenderPass { depth: Some(depth), depth_stencil_layout: 7 },
        TrackedCommand::Barriers(vec![]),
    ];
    let written = vec![
        TrackedCommand::BeginRenderPass { targets: vec![color], depth: Some(depth), read_only_depth: false },
        TrackedCommand::EndRenderPass { depth: Some(depth), depth_stencil_layout: 3 },
    ];
    let results = ctx.compile_lists(&mut native, &vec![pass, written], 5);
    assert_eq!(results.len(), 2);
    let (outs, defaults) = &results[0];
    assert_eq!(outs[0].before.images.len(), 2);
    assert_eq!(outs[0].before.images[1].next_access, AccessType::DepthStencilAttachmentRead);
    assert!(outs[1].before.images.is_empty());
    assert_eq!(outs[1].after.images.len(), 1);
    assert_eq!(outs[1].after.images[0].image, 102);
    assert_eq!(defaults.images.len(), 1);
    assert_eq!(defaults.images[0].image, 101);
    let (outs, defaults) = &results[1];
    assert_eq!(outs[0].before.images[1].next_access, AccessType::DepthStencilAttachmentWrite);
    assert!(outs[1].after.images.is_empty());
    assert_eq!(defaults.images.len(), 2);
    assert!(ctx.resource_tracker.items.is_empty());
    assert!(!native.opened);
    assert_eq!(native.command_buffer, Some(5));
}
