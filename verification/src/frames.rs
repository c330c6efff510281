//! The per-frame state of a device: each frame in flight has its own pool
//! of universal command buffers and its own upload allocator, and
//! advancing to a frame resets that frame's allocator.

use vstd::prelude::*;
use crate::allocator::HostLinearAllocator;
use crate::allocator::ResetSummary;
use crate::allocator::ResourceBlock;
use crate::allocator::heap_limit;
use crate::allocator::sum_sizes;
use crate::allocator::sum_offsets;
use crate::allocator::fresh_block;
use crate::allocator::emptied;
use crate::allocator::spec_active_count;
use crate::command_list::CommandBufferPool;
use crate::swap_chain::MAX_GPU_FRAMES;
use crate::swap_chain::advance_frame_index;

verus! {

/// What one frame in flight owns.
pub struct RenderDeviceFrame {
    pub universal_pool: CommandBufferPool,
    pub linear_allocator: HostLinearAllocator,
}

/// The frames in flight and the index of the current one.
pub struct RenderDeviceFrames {
    pub frames: Vec<RenderDeviceFrame>,
    pub frame_index: usize,
}

impl RenderDeviceFrames {
    /// One frame per frame in flight, each well formed, and a current
    /// frame among them.
    pub open spec fn wf(&self) -> bool {
        &&& self.frames@.len() == MAX_GPU_FRAMES
        &&& self.frame_index < MAX_GPU_FRAMES
        &&& forall|i: int| 0 <= i < self.frames@.len() ==> {
            &&& (#[trigger] self.frames@[i]).linear_allocator.wf()
            &&& self.frames@[i].universal_pool.wf()
        }
    }

    /// Frames with empty pools and allocators whose blocks are at least
    /// `min_resource_block_size` bytes; the first frame is current.
    pub fn new(min_resource_block_size: usize) -> (r: Self)
        requires
            min_resource_block_size <= heap_limit(),
        ensures
            r.wf(),
            r.frame_index == 0,
            forall|i: int| 0 <= i < MAX_GPU_FRAMES ==> {
                &&& (#[trigger] r.frames@[i]).linear_allocator.blocks@.len() == 0
                &&& r.frames@[i].linear_allocator.min_resource_block_size == min_resource_block_size
                &&& r.frames@[i].universal_pool.buffers@.len() == 0
                &&& r.frames@[i].universal_pool.usage_count == 0
            },
    {
        let mut frames: Vec<RenderDeviceFrame> = Vec::new();
        let mut i: usize = 0;
        while i < MAX_GPU_FRAMES
            invariant
                i <= MAX_GPU_FRAMES,
                min_resource_block_size <= heap_limit(),
                frames@.len() == i,
                forall|j: int| 0 <= j < i ==> {
                    &&& (#[trigger] frames@[j]).linear_allocator.wf()
                    &&& frames@[j].universal_pool.wf()
                    &&& frames@[j].linear_allocator.blocks@.len() == 0
                    &&& frames@[j].linear_allocator.min_resource_block_size == min_resource_block_size
                    &&& frames@[j].universal_pool.buffers@.len() == 0
                    &&& frames@[j].universal_pool.usage_count == 0
                },
            decreases MAX_GPU_FRAMES - i,
        {
            frames.push(RenderDeviceFrame {
                universal_pool: CommandBufferPool::new(),
                linear_allocator: HostLinearAllocator::new(min_resource_block_size),
            });
            i += 1;
        }
        RenderDeviceFrames { frames, frame_index: 0 }
    }

    /// Move to the next frame and reset its allocator, compacting its
    /// blocks into the block `fresh` holds when it has several. Returns the
    /// frame waited for first (the device waits until idle, so the first)
    /// and what the reset found. The other frame and the command pools are
    /// left as they are.
    pub fn advance_frame(&mut self, fresh: Option<(u64, u64)>) -> (r: (usize, ResetSummary))
        requires
            old(self).wf(),
            fresh is Some <==> old(self).frames@[((old(self).frame_index + 1) % (MAX_GPU_FRAMES as int))].linear_allocator.blocks@.len() > 1,
        ensures
            final(self).wf(),
            final(self).frame_index == (old(self).frame_index + 1) % (MAX_GPU_FRAMES as int),
            r.0 == 0,
            ({
                let n = final(self).frame_index as int;
                let before = old(self).frames@[n].linear_allocator;
                let after = final(self).frames@[n].linear_allocator;
                &&& r.1.total_usage == sum_offsets(before.blocks@)
                &&& r.1.total_size == sum_sizes(before.blocks@)
                &&& r.1.blocks_created == before.blocks_created
                &&& match fresh {
                    Some((buffer, device_memory)) => after.blocks@ == seq![
                        fresh_block(buffer, device_memory, before.min_resource_block_size, sum_sizes(before.blocks@) as usize),
                    ],
                    None => after.blocks@ == before.blocks@.map_values(|b: ResourceBlock| emptied(b)),
                }
                &&& spec_active_count(after.blocks@) == 0
                &&& after.blocks_created == 0
                &&& after.min_resource_block_size == before.min_resource_block_size
                &&& final(self).frames@[n].universal_pool.buffers@ == old(self).frames@[n].universal_pool.buffers@
                &&& final(self).frames@[n].universal_pool.usage_count == old(self).frames@[n].universal_pool.usage_count
            }),
            forall|i: int| 0 <= i < MAX_GPU_FRAMES && i != final(self).frame_index ==> #[trigger] final(self).frames@[i] == old(self).frames@[i],
    {
        let (next, wait) = advance_frame_index(self.frame_index);
        self.frame_index = next;
        let ghost before = self.frames@;
        let mut frame = self.frames.remove(next);
        let summary = frame.linear_allocator.reset(fresh);
        self.frames.insert(next, frame);
        proof {
            assert forall|i: int| 0 <= i < MAX_GPU_FRAMES && i != next implies #[trigger] self.frames@[i] == before[i] by {
                if i < next {
                    assert(self.frames@[i] == before.remove(next as int)[i]);
                } else {
                    assert(self.frames@[i] == before.remove(next as int)[i - 1]);
                }
            }
            assert forall|i: int| 0 <= i < self.frames@.len() implies {
                &&& (#[trigger] self.frames@[i]).linear_allocator.wf()
                &&& self.frames@[i].universal_pool.wf()
            } by {
                if i != next {
                    assert(self.frames@[i] == before[i]);
                }
            }
        }
        (wait, summary)
    }
}

} // verus!
