use render_hal_vk::allocator::align_forward;
use render_hal_vk::allocator::HostLinearAllocator;
use render_hal_vk::allocator::DEFAULT_ALIGNMENT;
use render_hal_vk::allocator::MAX_ALIGNMENT;
use render_hal_vk::frames::RenderDeviceFrames;

#[test]
fn align_forward_rounds_up_to_multiple() {
    assert_eq!(align_forward(0, 256), 0);
    assert_eq!(align_forward(1, 256), 256);
    assert_eq!(align_forward(256, 256), 256);
    assert_eq!(align_forward(257, 256), 512);
    assert_eq!(align_forward(100_000, MAX_ALIGNMENT), 131_072);
}

#[test]
fn resource_block_size_takes_larger_and_aligns() {
    let alloc = HostLinearAllocator::new(1000);
    assert_eq!(alloc.resource_block_size(10), 65_536);
    assert_eq!(alloc.resource_block_size(70_000), 131_072);
    let big = HostLinearAllocator::new(200_000);
    assert_eq!(big.resource_block_size(10), 262_144);
}

#[test]
fn allocate_without_blocks_grows_a_block() {
    let mut alloc = HostLinearAllocator::new(65_536);
    assert_eq!(alloc.free_block_index(64, DEFAULT_ALIGNMENT), None);
    let a = alloc.allocate(64, None, Some((5, 50)));
    assert_eq!((a.buffer, a.device_memory, a.offset, a.size), (5, 50, 0, 64));
    assert_eq!(alloc.blocks.len(), 1);
    assert_eq!((alloc.blocks[0].size, alloc.blocks[0].current_offset), (65_536, 64));
    assert_eq!(alloc.blocks_created, 1);
    assert_eq!(alloc.active_block_count(), 1);
}

#[test]
fn allocations_advance_through_a_block() {
    let mut alloc = HostLinearAllocator::new(65_536);
    let index = alloc.add_block(7, 70, 65_536);
    assert_eq!(index, 0);
    assert_eq!(alloc.blocks_created, 1);

    let a = alloc.allocate(100, None, None);
    assert_eq!((a.buffer, a.device_memory, a.offset, a.size), (7, 70, 0, 100));
    let b = alloc.allocate(10, None, None);
    assert_eq!(b.offset, DEFAULT_ALIGNMENT);
    let c = alloc.allocate(4, Some(4), None);
    assert_eq!(c.offset, 268);
    assert_eq!(alloc.blocks[0].current_offset, 272);
    assert_eq!(alloc.active_block_count(), 1);
}

#[test]
fn allocation_that_does_not_fit_finds_no_block() {
    let mut alloc = HostLinearAllocator::new(1024);
    alloc.add_block(1, 2, 1024);
    alloc.allocate(1000, None, None);
    assert_eq!(alloc.free_block_index(100, DEFAULT_ALIGNMENT), None);
    assert_eq!(alloc.blocks[0].current_offset, 1000);
    assert_eq!(alloc.active_block_count(), 1);
}

#[test]
fn free_block_index_picks_first_fit() {
    let mut alloc = HostLinearAllocator::new(1024);
    alloc.add_block(1, 1, 1024);
    alloc.add_block(2, 2, 4096);
    assert_eq!(alloc.free_block_index(2000, 256), Some(1));
    assert_eq!(alloc.free_block_index(10, 256), Some(0));
    assert_eq!(alloc.free_block_index(5000, 256), None);
    let a = alloc.allocate(2000, None, None);
    assert_eq!(a.buffer, 2);
}

#[test]
fn reset_empties_blocks_and_reports_usage() {
    let mut alloc = HostLinearAllocator::new(1024);
    alloc.add_block(1, 1, 1024);
    alloc.add_block(2, 2, 4096);
    alloc.allocate(1000, None, None);
    alloc.allocate(2000, None, None);
    assert_eq!(alloc.total_size(), 5120);
    assert_eq!(alloc.compaction_size(), Some(65_536));
    let summary = alloc.reset(Some((9, 90)));
    assert_eq!(summary.total_usage, 3000);
    assert_eq!(summary.total_size, 5120);
    assert_eq!(summary.blocks_created, 2);
    assert_eq!(alloc.active_block_count(), 0);
    assert_eq!(alloc.blocks_created, 0);
    assert_eq!(alloc.blocks.len(), 1);
    assert_eq!((alloc.blocks[0].buffer, alloc.blocks[0].device_memory), (9, 90));
    assert_eq!((alloc.blocks[0].size, alloc.blocks[0].current_offset), (65_536, 0));

    let a = alloc.allocate(16, None, None);
    assert_eq!((a.buffer, a.offset), (9, 0));
}

#[test]
fn reset_of_a_single_block_does_not_compact() {
    let mut alloc = HostLinearAllocator::new(1024);
    alloc.add_block(1, 1, 1024);
    alloc.allocate(10, None, None);
    assert_eq!(alloc.compaction_size(), None);
    let summary = alloc.reset(None);
    assert_eq!(summary.total_usage, 10);
    assert_eq!(alloc.blocks.len(), 1);
    assert_eq!((alloc.blocks[0].buffer, alloc.blocks[0].size, alloc.blocks[0].current_offset), (1, 1024, 0));
}

#[test]
fn compaction_covers_the_total_size() {
    let mut alloc = HostLinearAllocator::new(1024);
    alloc.add_block(1, 1, 65_536);
    alloc.add_block(2, 2, 65_536);
    alloc.add_block(3, 3, 4096);
    assert_eq!(alloc.compaction_size(), Some(196_608));
    alloc.reset(Some((4, 4)));
    assert_eq!(alloc.blocks[0].size, 196_608);
    assert_eq!(alloc.free_block_index(135_168, DEFAULT_ALIGNMENT), Some(0));
}

#[test]
fn a_new_block_of_the_advised_size_fits_the_request() {
    let mut alloc = HostLinearAllocator::new(1024);
    let size = 100_000;
    assert_eq!(alloc.free_block_index(size, MAX_ALIGNMENT), None);
    assert_eq!(alloc.resource_block_size(size), 131_072);
    let a = alloc.allocate(size, Some(MAX_ALIGNMENT), Some((3, 4)));
    assert_eq!((a.buffer, a.offset, a.size), (3, 0, size));
    assert_eq!(alloc.blocks[0].size, 131_072);
}

#[test]
fn advancing_a_frame_resets_its_allocator_only() {
    let mut frames = RenderDeviceFrames::new(1024);
    assert_eq!(frames.frame_index, 0);
    assert_eq!(frames.frames.len(), 2);
    frames.frames[1].linear_allocator.add_block(1, 1, 1024);
    frames.frames[1].linear_allocator.add_block(2, 2, 1024);
    frames.frames[1].linear_allocator.allocate(100, None, None);
    frames.frames[0].linear_allocator.add_block(3, 3, 1024);
    frames.frames[0].linear_allocator.allocate(50, None, None);
    let (wait, summary) = frames.advance_frame(Some((9, 9)));
    assert_eq!(wait, 0);
    assert_eq!(frames.frame_index, 1);
    assert_eq!((summary.total_usage, summary.total_size, summary.blocks_created), (100, 2048, 2));
    assert_eq!(frames.frames[1].linear_allocator.blocks.len(), 1);
    assert_eq!(frames.frames[1].linear_allocator.blocks[0].buffer, 9);
    assert_eq!(frames.frames[0].linear_allocator.blocks[0].current_offset, 50);
    let (_, summary) = frames.advance_frame(None);
    assert_eq!(frames.frame_index, 0);
    assert_eq!(summary.total_usage, 50);
    assert_eq!(frames.frames[0].linear_allocator.blocks[0].current_offset, 0);
}

#[test]
fn allocations_since_a_reset_do_not_overlap() {
    let mut alloc = HostLinearAllocator::new(1024);
    alloc.add_block(1, 1, 4096);
    let mut ranges = vec![];
    for (size, alignment) in [(100usize, None), (7, Some(4)), (300, Some(512)), (1, Some(1)), (64, None)] {
        let a = alloc.allocate(size, alignment, None);
        assert_eq!(a.offset % alignment.unwrap_or(DEFAULT_ALIGNMENT), 0);
        ranges.push((a.offset, a.offset + a.size));
    }
    for i in 0..ranges.len() {
        for j in (i + 1)..ranges.len() {
            assert!(ranges[i].1 <= ranges[j].0);
        }
        assert!(ranges[i].1 <= 4096);
    }
    alloc.reset(None);
    assert_eq!(alloc.allocate(16, None, None).offset, 0);
}
