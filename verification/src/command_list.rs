//! Command buffers as the device records and submits them, the per-frame
//! pools they come from, and the command lists of the renderer that bind
//! one buffer at a time.

use vstd::prelude::*;
use crate::device::RenderCommandListType;
use crate::device::RenderQueueType;
use crate::device::spec_list_queue_type;
use crate::device::get_list_queue_type;
use crate::vulkan;

verus! {

/// A command buffer: whether it is being recorded, and the fence value its
/// last submission signals.
pub struct CommandBufferState {
    pub raw: u64,
    pub opened: bool,
    pub submit_value: u64,
}

impl CommandBufferState {
    pub fn new(raw: u64) -> (r: Self)
        ensures
            r.raw == raw,
            !r.opened,
            r.submit_value == 0,
    {
        CommandBufferState { raw, opened: false, submit_value: 0 }
    }

    /// Whether the device may still be running the last submission: its
    /// fence value has not been reached.
    pub fn in_flight(&self, gpu_value: u64) -> (r: bool)
        ensures
            r == (self.submit_value > gpu_value),
    {
        self.submit_value > gpu_value
    }

    pub fn is_open(&self) -> (r: bool)
        ensures
            r == self.opened,
    {
        self.opened
    }

    /// Start recording; the buffer is neither recording nor in flight.
    pub fn open(&mut self, gpu_value: u64)
        requires
            !old(self).opened,
            old(self).submit_value <= gpu_value,
        ensures
            final(self).opened,
            final(self).raw == old(self).raw,
            final(self).submit_value == old(self).submit_value,
    {
        self.opened = true;
    }

    /// Stop recording.
    pub fn close(&mut self)
        requires
            old(self).opened,
        ensures
            !final(self).opened,
            final(self).raw == old(self).raw,
            final(self).submit_value == old(self).submit_value,
    {
        self.opened = false;
    }

    /// Note a submission that signals fence value `cpu_value`; the buffer
    /// is neither recording nor in flight when submitted.
    pub fn submitted(&mut self, gpu_value: u64, cpu_value: u64)
        requires
            !old(self).opened,
            old(self).submit_value <= gpu_value,
        ensures
            final(self).submit_value == cpu_value,
            !final(self).opened,
            final(self).raw == old(self).raw,
    {
        self.submit_value = cpu_value;
    }
}

/// A pool of command buffers reused frame after frame: the first
/// `usage_count` buffers are handed out.
pub struct CommandBufferPool {
    pub buffers: Vec<u64>,
    pub usage_count: usize,
}

impl CommandBufferPool {
    pub open spec fn wf(&self) -> bool {
        self.usage_count <= self.buffers@.len()
    }

    /// Buffers, usage count and the handed-out buffer after an allocation.
    pub open spec fn spec_allocate(buffers: Seq<u64>, usage_count: usize, fresh: Option<u64>) -> (Seq<u64>, usize, u64) {
        let bs = match fresh { Some(b) => buffers.push(b), None => buffers };
        (bs, (usage_count + 1) as usize, bs[usage_count as int])
    }

    /// Buffers and usage count after a reset.
    pub open spec fn spec_reset(buffers: Seq<u64>, usage_count: usize) -> (Seq<u64>, usize) {
        (buffers, 0usize)
    }

    pub fn new() -> (r: Self)
        ensures
            r.wf(),
            r.buffers@.len() == 0,
            r.usage_count == 0,
    {
        CommandBufferPool { buffers: Vec::new(), usage_count: 0 }
    }

    /// Whether the next allocation needs a new buffer.
    pub fn needs_new_buffer(&self) -> (r: bool)
        requires
            self.wf(),
        ensures
            r == (self.usage_count >= self.buffers@.len()),
    {
        self.usage_count >= self.buffers.len()
    }

    /// Hand out the next buffer, adding `fresh` first when all are in use.
    pub fn allocate(&mut self, fresh: Option<u64>) -> (r: u64)
        requires
            old(self).wf(),
            fresh is Some <==> old(self).usage_count >= old(self).buffers@.len(),
            old(self).usage_count < usize::MAX,
        ensures
            final(self).wf(),
            (final(self).buffers@, final(self).usage_count, r)
                == CommandBufferPool::spec_allocate(old(self).buffers@, old(self).usage_count, fresh),
    {
        match fresh {
            Some(b) => self.buffers.push(b),
            None => {},
        }
        let slot = self.usage_count;
        self.usage_count = self.usage_count + 1;
        self.buffers[slot]
    }

    /// Take all buffers back (the pool itself is reset on the device).
    pub fn reset(&mut self)
        requires
            old(self).wf(),
        ensures
            final(self).wf(),
            (final(self).buffers@, final(self).usage_count) == CommandBufferPool::spec_reset(old(self).buffers@, old(self).usage_count),
    {
        self.usage_count = 0;
    }
}

/// Between two resets a pool never hands out a buffer twice, as long as
/// its buffers are all different and a fresh buffer is one it does not
/// hold: the buffer handed out is none of those handed out since the reset
/// (the first `usage_count`), which stay as they were, and the buffers stay
/// all different.
pub proof fn lemma_pool_hands_out_distinct(buffers: Seq<u64>, usage_count: usize, fresh: Option<u64>)
    requires
        buffers.no_duplicates(),
        usage_count <= buffers.len(),
        fresh is Some <==> usage_count >= buffers.len(),
        fresh matches Some(b) ==> !buffers.contains(b),
        usage_count < usize::MAX,
    ensures
        ({
            let (bs, n, r) = CommandBufferPool::spec_allocate(buffers, usage_count, fresh);
            &&& bs.no_duplicates()
            &&& !buffers.take(usage_count as int).contains(r)
            &&& bs.take(n as int) == buffers.take(usage_count as int).push(r)
        }),
{
    let (bs, n, r) = CommandBufferPool::spec_allocate(buffers, usage_count, fresh);
    match fresh {
        Some(b) => {
            assert forall|i: int, j: int| 0 <= i < bs.len() && 0 <= j < bs.len() && i != j implies bs[i] != bs[j] by {
                if i == buffers.len() {
                    assert(buffers[j] == bs[j]);
                } else if j == buffers.len() {
                    assert(buffers[i] == bs[i]);
                }
            }
        },
        None => {},
    }
    assert(bs.take(n as int) =~= buffers.take(usage_count as int).push(r));
    if buffers.take(usage_count as int).contains(r) {
        let k = choose|k: int| 0 <= k < usage_count && buffers.take(usage_count as int)[k] == r;
        assert(bs[k] == bs[usage_count as int]);
    }
}

/// The pool and the buffers handed out after allocations with the given
/// fresh buffers, one per allocation, in order.
pub open spec fn spec_allocate_all(buffers: Seq<u64>, usage_count: usize, freshes: Seq<Option<u64>>) -> (Seq<u64>, usize, Seq<u64>)
    decreases freshes.len(),
{
    if freshes.len() == 0 {
        (buffers, usage_count, Seq::empty())
    } else {
        let (b, u, handed) = spec_allocate_all(buffers, usage_count, freshes.drop_last());
        let (b2, u2, r) = CommandBufferPool::spec_allocate(b, u, freshes.last());
        (b2, u2, handed.push(r))
    }
}

/// The fresh buffers of a run of allocations are given exactly when the
/// pool has no buffer left to hand out, and each is one the pool does not
/// hold yet.
pub open spec fn freshes_ok(buffers: Seq<u64>, usage_count: usize, freshes: Seq<Option<u64>>) -> bool
    decreases freshes.len(),
{
    if freshes.len() == 0 {
        true
    } else {
        let (b, u, _) = spec_allocate_all(buffers, usage_count, freshes.drop_last());
        &&& freshes_ok(buffers, usage_count, freshes.drop_last())
        &&& (freshes.last() is Some <==> u >= b.len())
        &&& (freshes.last() matches Some(f) ==> !b.contains(f))
    }
}

/// Between two resets a pool hands out each of its buffers at most once:
/// starting with all buffers different and `usage_count` of them handed
/// out, a run of allocations hands out buffers that are all different and
/// none of those handed out before, in pool order from `usage_count` on.
pub proof fn lemma_pool_run_distinct(buffers: Seq<u64>, usage_count: usize, freshes: Seq<Option<u64>>)
    requires
        buffers.no_duplicates(),
        usage_count <= buffers.len(),
        usage_count + freshes.len() < usize::MAX,
        freshes_ok(buffers, usage_count, freshes),
    ensures
        ({
            let (b, u, handed) = spec_allocate_all(buffers, usage_count, freshes);
            &&& b.no_duplicates()
            &&& u == usage_count + freshes.len()
            &&& u <= b.len()
            &&& b.take(usage_count as int) == buffers.take(usage_count as int)
            &&& handed == b.subrange(usage_count as int, u as int)
            &&& handed.no_duplicates()
            &&& forall|j: int| 0 <= j < handed.len() ==> !buffers.take(usage_count as int).contains(#[trigger] handed[j])
        }),
    decreases freshes.len(),
{
    if freshes.len() > 0 {
        let prev = freshes.drop_last();
        lemma_pool_run_distinct(buffers, usage_count, prev);
        let (b, u, handed) = spec_allocate_all(buffers, usage_count, prev);
        lemma_pool_hands_out_distinct(b, u, freshes.last());
        let (b2, u2, r) = CommandBufferPool::spec_allocate(b, u, freshes.last());
        assert(b2.take(u as int) =~= b.take(u as int));
        assert(b2.take(usage_count as int) =~= b.take(usage_count as int));
        assert(b2.subrange(usage_count as int, u2 as int) =~= handed.push(r)) by {
            assert(b.subrange(usage_count as int, u as int) == handed);
            assert(b2[u as int] == r);
        }
        let h2 = handed.push(r);
        assert forall|j: int, k: int| 0 <= j < h2.len() && 0 <= k < h2.len() && j != k implies h2[j] != h2[k] by {
            assert(h2[j] == b2[usage_count + j]);
            assert(h2[k] == b2[usage_count + k]);
        }
        assert forall|j: int| 0 <= j < h2.len() implies !buffers.take(usage_count as int).contains(#[trigger] h2[j]) by {
            if buffers.take(usage_count as int).contains(h2[j]) {
                let m = choose|m: int| 0 <= m < usage_count && buffers.take(usage_count as int)[m] == h2[j];
                assert(b2.take(usage_count as int)[m] == b2[m]);
                assert(h2[j] == b2[usage_count + j]);
                assert(b2[m] == b2[usage_count + j]);
            }
        }
    }
}

/// After a reset, a pool that has buffers hands out its first buffer
/// again without needing a new one.
pub proof fn lemma_pool_reuse_after_reset(buffers: Seq<u64>, usage_count: usize)
    requires
        buffers.len() > 0,
        usage_count <= buffers.len(),
    ensures
        ({
            let reset = CommandBufferPool::spec_reset(buffers, usage_count);
            &&& !(reset.1 >= reset.0.len())
            &&& CommandBufferPool::spec_allocate(reset.0, reset.1, None::<u64>) == (buffers, 1usize, buffers[0])
        }),
{
}

/// A command list of the renderer: its kind, the buffer bound to it until
/// it is submitted, and whether that buffer is being recorded.
pub struct CommandListState {
    pub list_type: RenderCommandListType,
    pub command_buffer: Option<u64>,
    pub opened: bool,
}

impl CommandListState {
    /// No buffer is recorded without being bound.
    pub open spec fn wf(&self) -> bool {
        self.opened ==> self.command_buffer is Some
    }

    pub open spec fn spec_open(s: CommandListState, buffer: u64) -> CommandListState {
        CommandListState { list_type: s.list_type, command_buffer: Some(buffer), opened: true }
    }

    pub open spec fn spec_close(s: CommandListState) -> CommandListState {
        CommandListState { opened: false, ..s }
    }

    pub open spec fn spec_submit(s: CommandListState) -> (CommandListState, u64) {
        (CommandListState { list_type: s.list_type, command_buffer: None, opened: false }, s.command_buffer->0)
    }

    pub fn new(list_type: RenderCommandListType) -> (r: Self)
        requires
            list_type != RenderCommandListType::Invalid,
        ensures
            r.wf(),
            r.list_type == list_type,
            r.command_buffer is None,
            !r.opened,
    {
        CommandListState { list_type, command_buffer: None, opened: false }
    }

    /// Recording: a buffer is bound and being recorded.
    pub fn is_open(&self) -> (r: bool)
        ensures
            r == (self.command_buffer is Some && self.opened),
    {
        self.command_buffer.is_some() && self.opened
    }

    /// Whether the list still needs a buffer from the frame's pool.
    pub fn needs_buffer(&self) -> (r: bool)
        ensures
            r == self.command_buffer is None,
    {
        self.command_buffer.is_none()
    }

    /// Open the list with a buffer from the frame's universal pool; a list
    /// is recorded once before each submission, and only universal lists
    /// are supported.
    pub fn open(&mut self, buffer: u64) -> (r: u64)
        requires
            old(self).wf(),
            !old(self).opened,
            old(self).command_buffer is None,
            old(self).list_type == RenderCommandListType::Universal,
        ensures
            final(self).wf(),
            *final(self) == CommandListState::spec_open(*old(self), buffer),
            r == buffer,
    {
        self.command_buffer = Some(buffer);
        self.opened = true;
        buffer
    }

    /// Stop recording.
    pub fn close(&mut self)
        requires
            old(self).wf(),
            old(self).opened,
        ensures
            final(self).wf(),
            *final(self) == CommandListState::spec_close(*old(self)),
    {
        self.opened = false;
    }

    /// Submit the recorded buffer: the list hands out one submission of
    /// its buffer, waiting on `wait_for` (each at `wait_dst_stage_mask`),
    /// signalling `signal_after` and then `fence` (0 for none), and the
    /// buffer is unbound, so that the next opening takes a fresh one.
    pub fn submit(&mut self, wait_for: &Vec<u64>, signal_after: &Vec<u64>, fence: Option<u64>, wait_dst_stage_mask: u32) -> (r: SubmitInfo)
        requires
            old(self).wf(),
            !old(self).opened,
            old(self).command_buffer is Some,
        ensures
            final(self).wf(),
            *final(self) == CommandListState::spec_submit(*old(self)).0,
            r.command_buffer == CommandListState::spec_submit(*old(self)).1,
            r.wait_semaphores@ == wait_for@,
            r.wait_stages@ == Seq::new(wait_for@.len(), |i: int| wait_dst_stage_mask),
            r.signal_semaphores@ == signal_after@,
            r.fence == (match fence {
                Some(f) => f,
                None => 0,
            }),
    {
        let command_buffer = match self.command_buffer {
            Some(b) => b,
            None => 0,
        };
        let mut wait_semaphores: Vec<u64> = Vec::new();
        let mut wait_stages: Vec<u32> = Vec::new();
        let mut i: usize = 0;
        while i < wait_for.len()
            invariant
                i <= wait_for@.len(),
                wait_semaphores@ == wait_for@.take(i as int),
                wait_stages@ == Seq::new(i as nat, |k: int| wait_dst_stage_mask),
            decreases wait_for@.len() - i,
        {
            wait_semaphores.push(wait_for[i]);
            wait_stages.push(wait_dst_stage_mask);
            i += 1;
            assert(wait_semaphores@ =~= wait_for@.take(i as int));
            assert(wait_stages@ =~= Seq::new(i as nat, |k: int| wait_dst_stage_mask));
        }
        assert(wait_for@.take(i as int) =~= wait_for@);
        let mut signal_semaphores: Vec<u64> = Vec::new();
        let mut j: usize = 0;
        while j < signal_after.len()
            invariant
                j <= signal_after@.len(),
                signal_semaphores@ == signal_after@.take(j as int),
            decreases signal_after@.len() - j,
        {
            signal_semaphores.push(signal_after[j]);
            j += 1;
            assert(signal_semaphores@ =~= signal_after@.take(j as int));
        }
        assert(signal_after@.take(j as int) =~= signal_after@);
        self.command_buffer = None;
        let fence = match fence {
            Some(f) => f,
            None => 0,
        };
        SubmitInfo { command_buffer, wait_semaphores, wait_stages, signal_semaphores, fence }
    }
}

/// One queue submission (`VkSubmitInfo` with its fence): the command
/// buffer, the semaphores waited on, the stage mask each is waited at, the
/// semaphores signalled, and the fence signalled (0 for none).
pub struct SubmitInfo {
    pub command_buffer: u64,
    pub wait_semaphores: Vec<u64>,
    pub wait_stages: Vec<u32>,
    pub signal_semaphores: Vec<u64>,
    pub fence: u64,
}

/// The queues of a device by queue type, where it has one.
#[derive(Clone, Copy, Debug, PartialEq, Eq, Structural)]
pub struct DeviceQueues {
    pub universal: Option<u64>,
    pub compute: Option<u64>,
    pub transfer: Option<u64>,
}

/// The queue of a queue type.
pub open spec fn spec_queue_of(queues: DeviceQueues, queue_type: RenderQueueType) -> Option<u64> {
    match queue_type {
        RenderQueueType::Universal => queues.universal,
        RenderQueueType::Compute => queues.compute,
        RenderQueueType::Transfer => queues.transfer,
    }
}

/// A command list was not submitted: the device has no queue of its type.
#[derive(Clone, Copy, Debug, PartialEq, Eq, Structural)]
pub struct NoQueueForList;

/// Submit a closed command list to the queue of its type, waiting on and
/// signalling nothing and with no fence: the queue and the submission, or
/// `NoQueueForList` (and the list untouched) when the device has no such
/// queue.
pub fn submit_command_list(queues: &DeviceQueues, list: &mut CommandListState) -> (r: Result<(u64, SubmitInfo), NoQueueForList>)
    requires
        old(list).wf(),
        !old(list).opened,
        old(list).command_buffer is Some,
        old(list).list_type != RenderCommandListType::Invalid,
    ensures
        final(list).wf(),
        r is Err <==> spec_queue_of(*queues, spec_list_queue_type(old(list).list_type)) is None,
        r is Err ==> *final(list) == *old(list),
        r matches Ok((queue, submission)) ==> {
            &&& Some(queue) == spec_queue_of(*queues, spec_list_queue_type(old(list).list_type))
            &&& *final(list) == CommandListState::spec_submit(*old(list)).0
            &&& submission.command_buffer == CommandListState::spec_submit(*old(list)).1
            &&& submission.wait_semaphores@.len() == 0
            &&& submission.wait_stages@.len() == 0
            &&& submission.signal_semaphores@.len() == 0
            &&& submission.fence == 0
        },
{
    let queue = match get_list_queue_type(list.list_type) {
        RenderQueueType::Universal => queues.universal,
        RenderQueueType::Compute => queues.compute,
        RenderQueueType::Transfer => queues.transfer,
    };
    match queue {
        Some(q) => {
            let submission = list.submit(&Vec::new(), &Vec::new(), None, vulkan::PIPELINE_STAGE_COLOR_ATTACHMENT_OUTPUT);
            Ok((q, submission))
        },
        None => Err(NoQueueForList),
    }
}

/// Opening a fresh universal list, closing it and submitting it hands out
/// the buffer it was opened with and leaves the list as it was.
pub proof fn lemma_list_cycle(list_type: RenderCommandListType, buffer: u64)
    requires
        list_type == RenderCommandListType::Universal,
    ensures
        ({
            let fresh = CommandListState { list_type, command_buffer: None, opened: false };
            let opened = CommandListState::spec_open(fresh, buffer);
            let closed = CommandListState::spec_close(opened);
            let (submitted, handed) = CommandListState::spec_submit(closed);
            &&& opened.wf() && closed.wf() && submitted.wf()
            &&& handed == buffer
            &&& submitted == fresh
        }),
{
}

} // verus!
