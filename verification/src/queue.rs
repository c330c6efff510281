//! Command queues: fences armed by submissions, and the epoch buckets that
//! keep tracked objects alive until the device has finished with them.

use vstd::prelude::*;
use crate::vulkan;
use crate::command::QueueId;
use crate::errors::{DeviceError, DeviceLost};

verus! {

/// Fence that wasn't submitted to the queue.
#[derive(Debug)]
pub struct UnarmedFence {
    pub raw: u64,
}

/// Fence that was submitted to the queue: it signals when the work of
/// submission `epoch` on `queue` is done.
#[derive(Debug)]
pub struct ArmedFence<C> {
    pub raw: u64,
    pub queue: QueueId<C>,
    pub epoch: u64,
}

/// Fence that was successfully checked for signalling.
#[derive(Debug)]
pub struct ReadyFence<C> {
    pub raw: u64,
    pub queue: QueueId<C>,
    pub epoch: u64,
}

/// Flag to wait for...
#[derive(Clone, Copy, Debug, PartialEq, Eq, Structural)]
pub enum WaitFor {
    /// At least one fence.
    Any,
    /// All fences.
    All,
}

/// A Vulkan object that is destroyed once the device no longer uses it,
/// by its raw handle.
#[derive(Clone, Copy, Debug, PartialEq, Eq, Structural)]
pub enum VulkanObject {
    Buffer(u64),
    BufferView(u64),
    CommandBuffer(u64),
    CommandPool(u64),
    DescriptorPool(u64),
    DescriptorSet(u64),
    DeviceMemory(u64),
    Event(u64),
    Fence(u64),
    Framebuffer(u64),
    Image(u64),
    ImageView(u64),
    Pipeline(u64),
    RenderPass(u64),
    Sampler(u64),
    Semaphore(u64),
    QueryPool(u64),
}

/// A batch of objects collected together.
#[derive(Debug)]
pub struct VulkanObjects {
    pub objects: Vec<VulkanObject>,
}

/// Objects tracked until the submissions up to `epoch` complete.
#[derive(Debug)]
pub struct Bucket {
    pub epoch: u64,
    pub objects: Option<std::sync::Arc<VulkanObjects>>,
}

/// Command queue submission.
pub struct Submission<W, B, S> {
    pub wait: W,
    pub submits: B,
    pub signal: S,
}

/// The epochs of a sequence of buckets.
pub open spec fn epochs(s: Seq<Bucket>) -> Seq<u64> {
    s.map_values(|b: Bucket| b.epoch)
}

/// A bucket with its objects released: the node kept for reuse.
pub open spec fn released(b: Bucket) -> Bucket {
    Bucket { epoch: b.epoch, objects: None }
}

/// Epochs never decrease along the sequence.
pub open spec fn sorted_epochs(s: Seq<u64>) -> bool {
    forall|i: int, j: int| 0 <= i <= j < s.len() ==> s[i] <= s[j]
}

/// `k` is the number of leading buckets whose epoch the fence epoch has
/// reached: all of them are `<= epoch`, and the next one (if any) is later.
pub open spec fn completed_prefix(s: Seq<u64>, epoch: u64, k: int) -> bool {
    &&& 0 <= k <= s.len()
    &&& forall|j: int| 0 <= j < k ==> s[j] <= epoch
    &&& (k < s.len() ==> s[k] > epoch)
}

/// Vulkan's command queue, marked with capability.
pub struct Queue<C> {
    pub raw: u64,
    pub id: QueueId<C>,
    /// Next epoch index for this queue.
    pub next: u64,
    /// Free bucket nodes.
    pub free: Vec<Bucket>,
    /// Pending bucket nodes.
    pub pending: Vec<Bucket>,
}

impl<C: Copy> Queue<C> {
    pub open spec fn next_epoch(&self) -> u64 {
        self.next
    }

    /// Epochs of the pending buckets, oldest first.
    pub open spec fn pending_epochs(&self) -> Seq<u64> {
        epochs(self.pending@)
    }

    /// Whether each pending bucket still holds its objects.
    pub open spec fn pending_held(&self) -> Seq<bool> {
        self.pending@.map_values(|b: Bucket| b.objects is Some)
    }

    /// Number of free bucket nodes kept for reuse.
    pub open spec fn free_len(&self) -> nat {
        self.free@.len()
    }

    /// Free nodes hold no objects.
    pub open spec fn free_empty(&self) -> bool {
        forall|i: int| 0 <= i < self.free@.len() ==> self.free@[i].objects is None
    }

    /// Pending epochs are in submission order and none is ahead of the
    /// next epoch.
    pub open spec fn wf(&self) -> bool {
        &&& sorted_epochs(self.pending_epochs())
        &&& forall|i: int| 0 <= i < self.pending_epochs().len() ==> self.pending_epochs()[i] <= self.next_epoch()
    }

    /// Convert raw queue handle to the wrapper.
    pub fn from_raw(raw: u64, id: QueueId<C>) -> (r: Self)
        ensures
            r.raw == raw,
            r.id == id,
            r.next_epoch() == 0,
            r.pending_epochs() == Seq::<u64>::empty(),
            r.free_len() == 0,
            r.wf(),
    {
        let r = Queue { raw, id, next: 0, free: Vec::new(), pending: Vec::new() };
        assert(epochs(r.pending@) =~= Seq::<u64>::empty());
        r
    }

    /// Arm the fence (if any) for the next submission: it will mark the
    /// current epoch.
    pub fn arm_fence(&self, fence: Option<UnarmedFence>) -> (r: Option<ArmedFence<C>>)
        ensures
            match fence {
                Some(f) => (r matches Some(a) && a.raw == f.raw && a.queue == self.id && a.epoch == self.next_epoch()),
                None => r is None,
            },
    {
        match fence {
            Some(UnarmedFence { raw }) => Some(ArmedFence { raw, queue: self.id, epoch: self.next }),
            None => None,
        }
    }

    /// Conclude a submission with the `VkResult` of `vkQueueSubmit`: on
    /// success a fence that was armed consumes the epoch; errors are
    /// classified as device errors and leave the epoch unchanged.
    pub fn finish_submit(&mut self, result: i32, armed_fence: Option<ArmedFence<C>>) -> (r: Result<Option<ArmedFence<C>>, DeviceError>)
        requires
            old(self).wf(),
            result == vulkan::RESULT_SUCCESS || DeviceError::is_device_code(result),
            armed_fence is Some ==> old(self).next_epoch() < u64::MAX,
        ensures
            final(self).wf(),
            final(self).raw == old(self).raw,
            final(self).id == old(self).id,
            final(self).pending_epochs() == old(self).pending_epochs(),
            final(self).pending_held() == old(self).pending_held(),
            final(self).free_len() == old(self).free_len(),
            final(self).free_empty() == old(self).free_empty(),
            result == vulkan::RESULT_SUCCESS ==> r == Ok::<Option<ArmedFence<C>>, DeviceError>(armed_fence),
            result == vulkan::RESULT_SUCCESS && armed_fence is Some ==> final(self).next_epoch() == old(self).next_epoch() + 1,
            !(result == vulkan::RESULT_SUCCESS && armed_fence is Some) ==> final(self).next_epoch() == old(self).next_epoch(),
            result != vulkan::RESULT_SUCCESS ==> r == Err::<Option<ArmedFence<C>>, DeviceError>(DeviceError::spec_from_vk_result(result)),
    {
        if result == vulkan::RESULT_SUCCESS {
            if armed_fence.is_some() {
                self.next = self.next + 1;
            }
            Ok(armed_fence)
        } else {
            Err(DeviceError::from_vk_result(result))
        }
    }

    /// Push tracked objects, associated with the next epoch. A free node is
    /// reused when there is one.
    pub fn push_track(&mut self, objects: std::sync::Arc<VulkanObjects>)
        requires
            old(self).wf(),
        ensures
            final(self).wf(),
            final(self).raw == old(self).raw,
            final(self).id == old(self).id,
            final(self).next_epoch() == old(self).next_epoch(),
            final(self).pending_epochs() == old(self).pending_epochs().push(old(self).next_epoch()),
            final(self).pending_held() == old(self).pending_held().push(true),
            final(self).free_len() == if old(self).free_len() == 0 { 0 } else { (old(self).free_len() - 1) as nat },
            old(self).free_empty() ==> final(self).free_empty(),
    {
        let bucket = Bucket { epoch: self.next, objects: Some(objects) };
        if self.free.len() == 0 {
            self.pending.push(bucket);
        } else {
            // Reuse the last free node for the new bucket.
            let _reused = self.free.pop();
            self.pending.push(bucket);
        }
        proof {
            assert(epochs(self.pending@) =~= epochs(old(self).pending@).push(old(self).next));
            assert(self.pending@.map_values(|b: Bucket| b.objects is Some)
                =~= old(self).pending@.map_values(|b: Bucket| b.objects is Some).push(true));
        }
    }

    /// Called with a ready fence armed by this queue: release the objects of
    /// every leading pending bucket whose epoch the fence has reached and
    /// move those nodes to the free list. Returns the fence, unarmed.
    pub fn complete(&mut self, fence: ReadyFence<C>) -> (r: UnarmedFence)
        requires
            old(self).wf(),
            fence.queue.same_queue(old(self).id),
        ensures
            final(self).wf(),
            r.raw == fence.raw,
            final(self).raw == old(self).raw,
            final(self).id == old(self).id,
            final(self).next_epoch() == old(self).next_epoch(),
            exists|k: int| {
                &&& completed_prefix(old(self).pending_epochs(), fence.epoch, k)
                &&& final(self).pending@ == old(self).pending@.skip(k)
                &&& final(self).free@ == old(self).free@ + old(self).pending@.take(k).map_values(|b: Bucket| released(b))
                &&& final(self).pending_epochs() == old(self).pending_epochs().skip(k)
                &&& final(self).pending_held() == old(self).pending_held().skip(k)
                &&& final(self).free_len() == old(self).free_len() + k
            },
            old(self).free_empty() ==> final(self).free_empty(),
            forall|i: int| 0 <= i < final(self).pending_epochs().len() ==> final(self).pending_epochs()[i] > fence.epoch,
    {
        let ghost old_pending = self.pending@;
        let ghost old_free_len = self.free@.len();
        let mut k: usize = 0;
        while k < self.pending.len() && self.pending[k].epoch <= fence.epoch
            invariant
                k <= self.pending@.len(),
                self.pending@ == old_pending,
                self.free@.len() == old_free_len + k,
                self.free@ == old(self).free@ + old_pending.take(k as int).map_values(|b: Bucket| released(b)),
                old(self).free_empty() ==> forall|i: int| 0 <= i < self.free@.len() ==> self.free@[i].objects is None,
                forall|j: int| 0 <= j < k ==> old_pending[j].epoch <= fence.epoch,
                self.next == old(self).next,
                self.raw == old(self).raw,
                self.id == old(self).id,
            decreases self.pending@.len() - k,
        {
            // The bucket's objects are released; its node becomes free.
            let epoch = self.pending[k].epoch;
            self.free.push(Bucket { epoch, objects: None });
            k += 1;
            assert(self.free@ =~= old(self).free@ + old_pending.take(k as int).map_values(|b: Bucket| released(b)));
        }
        let tail = self.pending.split_off(k);
        self.pending = tail;
        proof {
            let e = epochs(old_pending);
            assert(self.pending@ =~= old_pending.skip(k as int));
            assert(epochs(self.pending@) =~= e.skip(k as int));
            assert(self.pending@.map_values(|b: Bucket| b.objects is Some)
                =~= old_pending.map_values(|b: Bucket| b.objects is Some).skip(k as int));
            assert(completed_prefix(e, fence.epoch, k as int));
            assert forall|i: int| 0 <= i < epochs(self.pending@).len() implies epochs(self.pending@)[i] > fence.epoch by {
                assert(e[k as int] > fence.epoch);
                assert(e[k as int] <= e[k + i]);
            }
        }
        UnarmedFence { raw: fence.raw }
    }
}

/// A command buffer ready for submission, with the index of its family.
#[derive(Clone, Copy, Debug, PartialEq, Eq, Structural)]
pub struct SubmitBuffer {
    pub raw: u64,
    pub family: u32,
}

/// One submission: the semaphores waited on, each with the stage mask it
/// is waited at, the command buffers, and the semaphores signalled.
pub struct SubmissionInput {
    pub wait: Vec<(u64, u32)>,
    pub submits: Vec<SubmitBuffer>,
    pub signal: Vec<u64>,
}

/// Where a submission's entries lie in the shared arrays of a queue
/// submission (`VkSubmitInfo` points into them).
#[derive(Clone, Copy, Debug, PartialEq, Eq, Structural)]
pub struct SubmitRange {
    pub wait_start: usize,
    pub wait_count: usize,
    pub buffer_start: usize,
    pub buffer_count: usize,
    pub signal_start: usize,
    pub signal_count: usize,
}

/// The shared arrays of a queue submission, and the range of each
/// submission in them.
pub struct AssembledSubmissions {
    pub waits: Vec<u64>,
    pub stages: Vec<u32>,
    pub buffers: Vec<u64>,
    pub signals: Vec<u64>,
    pub ranges: Vec<SubmitRange>,
}

/// The waits of all submissions, one after the other.
pub open spec fn flat_waits(subs: Seq<SubmissionInput>) -> Seq<(u64, u32)>
    decreases subs.len(),
{
    if subs.len() == 0 { Seq::empty() } else { flat_waits(subs.drop_last()) + subs.last().wait@ }
}

/// The command buffers of all submissions, one after the other.
pub open spec fn flat_buffers(subs: Seq<SubmissionInput>) -> Seq<SubmitBuffer>
    decreases subs.len(),
{
    if subs.len() == 0 { Seq::empty() } else { flat_buffers(subs.drop_last()) + subs.last().submits@ }
}

/// The signalled semaphores of all submissions, one after the other.
pub open spec fn flat_signals(subs: Seq<SubmissionInput>) -> Seq<u64>
    decreases subs.len(),
{
    if subs.len() == 0 { Seq::empty() } else { flat_signals(subs.drop_last()) + subs.last().signal@ }
}

/// The range of submission `i`: its entries start where those of the
/// submissions before it end.
pub open spec fn spec_submit_range(subs: Seq<SubmissionInput>, i: int) -> SubmitRange {
    SubmitRange {
        wait_start: flat_waits(subs.take(i)).len() as usize,
        wait_count: subs[i].wait@.len() as usize,
        buffer_start: flat_buffers(subs.take(i)).len() as usize,
        buffer_count: subs[i].submits@.len() as usize,
        signal_start: flat_signals(subs.take(i)).len() as usize,
        signal_count: subs[i].signal@.len() as usize,
    }
}

/// The lengths of the arrays of a prefix are at most those of all.
proof fn lemma_flat_prefix(subs: Seq<SubmissionInput>, i: int)
    requires
        0 <= i <= subs.len(),
    ensures
        flat_waits(subs.take(i)).len() <= flat_waits(subs).len(),
        flat_buffers(subs.take(i)).len() <= flat_buffers(subs).len(),
        flat_signals(subs.take(i)).len() <= flat_signals(subs).len(),
    decreases subs.len(),
{
    if i == subs.len() {
        assert(subs.take(i) =~= subs);
    } else {
        assert(subs.drop_last().take(i) =~= subs.take(i));
        lemma_flat_prefix(subs.drop_last(), i);
    }
}

/// Assemble the submissions of one queue submission: their waits, stage
/// masks, command buffers and signals in shared arrays, submission after
/// submission, and the range of each. Every command buffer must belong to
/// the queue's family.
pub fn assemble_submissions(family: u32, subs: &Vec<SubmissionInput>) -> (r: AssembledSubmissions)
    requires
        forall|i: int, k: int| 0 <= i < subs@.len() && 0 <= k < subs@[i].submits@.len()
            ==> (#[trigger] subs@[i].submits@[k]).family == family,
        flat_waits(subs@).len() <= usize::MAX,
        flat_buffers(subs@).len() <= usize::MAX,
        flat_signals(subs@).len() <= usize::MAX,
    ensures
        r.waits@ == flat_waits(subs@).map_values(|w: (u64, u32)| w.0),
        r.stages@ == flat_waits(subs@).map_values(|w: (u64, u32)| w.1),
        r.buffers@ == flat_buffers(subs@).map_values(|b: SubmitBuffer| b.raw),
        r.signals@ == flat_signals(subs@),
        r.ranges@.len() == subs@.len(),
        forall|i: int| 0 <= i < subs@.len() ==> #[trigger] r.ranges@[i] == spec_submit_range(subs@, i),
{
    let mut waits: Vec<u64> = Vec::new();
    let mut stages: Vec<u32> = Vec::new();
    let mut buffers: Vec<u64> = Vec::new();
    let mut signals: Vec<u64> = Vec::new();
    let mut ranges: Vec<SubmitRange> = Vec::new();
    let mut i: usize = 0;
    assert(subs@.take(0) =~= Seq::<SubmissionInput>::empty());
    while i < subs.len()
        invariant
            i <= subs@.len(),
            flat_waits(subs@).len() <= usize::MAX,
            flat_buffers(subs@).len() <= usize::MAX,
            flat_signals(subs@).len() <= usize::MAX,
            waits@ == flat_waits(subs@.take(i as int)).map_values(|w: (u64, u32)| w.0),
            stages@ == flat_waits(subs@.take(i as int)).map_values(|w: (u64, u32)| w.1),
            buffers@ == flat_buffers(subs@.take(i as int)).map_values(|b: SubmitBuffer| b.raw),
            signals@ == flat_signals(subs@.take(i as int)),
            ranges@.len() == i,
            forall|j: int| 0 <= j < i ==> #[trigger] ranges@[j] == spec_submit_range(subs@, j),
        decreases subs@.len() - i,
    {
        let sub = &subs[i];
        let ghost before = subs@.take(i as int);
        let ghost next = subs@.take(i + 1);
        proof {
            assert(next.drop_last() =~= before);
            assert(next.last() == subs@[i as int]);
            lemma_flat_prefix(subs@, i + 1);
        }
        let wait_start = waits.len();
        let buffer_start = buffers.len();
        let signal_start = signals.len();
        let ghost w0 = waits@;
        let ghost s0 = stages@;
        let mut k: usize = 0;
        while k < sub.wait.len()
            invariant
                k <= sub.wait@.len(),
                w0.len() + sub.wait@.len() <= usize::MAX,
                waits@ == w0 + sub.wait@.take(k as int).map_values(|w: (u64, u32)| w.0),
                stages@ == s0 + sub.wait@.take(k as int).map_values(|w: (u64, u32)| w.1),
            decreases sub.wait@.len() - k,
        {
            waits.push(sub.wait[k].0);
            stages.push(sub.wait[k].1);
            k += 1;
            assert(waits@ =~= w0 + sub.wait@.take(k as int).map_values(|w: (u64, u32)| w.0));
            assert(stages@ =~= s0 + sub.wait@.take(k as int).map_values(|w: (u64, u32)| w.1));
        }
        let ghost b0 = buffers@;
        let mut k: usize = 0;
        while k < sub.submits.len()
            invariant
                k <= sub.submits@.len(),
                buffers@ == b0 + sub.submits@.take(k as int).map_values(|b: SubmitBuffer| b.raw),
            decreases sub.submits@.len() - k,
        {
            buffers.push(sub.submits[k].raw);
            k += 1;
            assert(buffers@ =~= b0 + sub.submits@.take(k as int).map_values(|b: SubmitBuffer| b.raw));
        }
        let ghost g0 = signals@;
        let mut k: usize = 0;
        while k < sub.signal.len()
            invariant
                k <= sub.signal@.len(),
                signals@ == g0 + sub.signal@.take(k as int),
            decreases sub.signal@.len() - k,
        {
            signals.push(sub.signal[k]);
            k += 1;
            assert(signals@ =~= g0 + sub.signal@.take(k as int));
        }
        proof {
            assert(sub.wait@.take(sub.wait@.len() as int) =~= sub.wait@);
            assert(sub.submits@.take(sub.submits@.len() as int) =~= sub.submits@);
            assert(sub.signal@.take(sub.signal@.len() as int) =~= sub.signal@);
            assert(waits@ =~= flat_waits(next).map_values(|w: (u64, u32)| w.0));
            assert(stages@ =~= flat_waits(next).map_values(|w: (u64, u32)| w.1));
            assert(buffers@ =~= flat_buffers(next).map_values(|b: SubmitBuffer| b.raw));
            assert(signals@ =~= flat_signals(next));
        }
        ranges.push(SubmitRange {
            wait_start,
            wait_count: sub.wait.len(),
            buffer_start,
            buffer_count: sub.submits.len(),
            signal_start,
            signal_count: sub.signal.len(),
        });
        i += 1;
    }
    assert(subs@.take(i as int) =~= subs@);
    AssembledSubmissions { waits, stages, buffers, signals, ranges }
}

/// Classify the `VkResult` of `vkGetFenceStatus` for an armed fence:
/// signalled fences become ready, unsignalled ones are handed back, and a
/// lost device is an error.
pub fn get_fence_status<C: Copy>(result: i32, fence: ArmedFence<C>) -> (r: Result<Result<ReadyFence<C>, ArmedFence<C>>, DeviceLost>)
    requires
        result == vulkan::RESULT_SUCCESS || result == vulkan::RESULT_NOT_READY || result == vulkan::RESULT_ERROR_DEVICE_LOST,
    ensures
        result == vulkan::RESULT_SUCCESS ==> (r matches Ok(Ok(ready)) && ready.raw == fence.raw && ready.queue == fence.queue && ready.epoch == fence.epoch),
        result == vulkan::RESULT_NOT_READY ==> r == Ok::<Result<ReadyFence<C>, ArmedFence<C>>, DeviceLost>(Err(fence)),
        result == vulkan::RESULT_ERROR_DEVICE_LOST ==> r matches Err(_),
{
    if result == vulkan::RESULT_SUCCESS {
        Ok(Ok(ReadyFence { raw: fence.raw, queue: fence.queue, epoch: fence.epoch }))
    } else if result == vulkan::RESULT_NOT_READY {
        Ok(Err(fence))
    } else {
        Err(DeviceLost)
    }
}

/// Classify the `VkResult` of waiting for all of `fences`: on success all
/// become ready (in order), on timeout they are handed back, and any other
/// code is a device error.
pub fn wait_for_all_fences<C: Copy>(result: i32, fences: Vec<ArmedFence<C>>) -> (r: Result<Result<Vec<ReadyFence<C>>, Vec<ArmedFence<C>>>, DeviceError>)
    requires
        result == vulkan::RESULT_SUCCESS || result == vulkan::RESULT_TIMEOUT || DeviceError::is_device_code(result),
    ensures
        result == vulkan::RESULT_SUCCESS ==> (r matches Ok(Ok(ready)) && ready@.len() == fences@.len()
            && forall|i: int| 0 <= i < fences@.len() ==> ready@[i].raw == fences@[i].raw
                && ready@[i].queue == fences@[i].queue && ready@[i].epoch == fences@[i].epoch),
        result == vulkan::RESULT_TIMEOUT ==> (r matches Ok(Err(back)) && back@ == fences@),
        result != vulkan::RESULT_SUCCESS && result != vulkan::RESULT_TIMEOUT
            ==> r == Err::<Result<Vec<ReadyFence<C>>, Vec<ArmedFence<C>>>, DeviceError>(DeviceError::spec_from_vk_result(result)),
{
    if result == vulkan::RESULT_SUCCESS {
        let mut ready: Vec<ReadyFence<C>> = Vec::new();
        let mut i: usize = 0;
        while i < fences.len()
            invariant
                i <= fences@.len(),
                ready@.len() == i,
                forall|j: int| 0 <= j < i ==> ready@[j].raw == fences@[j].raw
                    && ready@[j].queue == fences@[j].queue && ready@[j].epoch == fences@[j].epoch,
            decreases fences@.len() - i,
        {
            let f = &fences[i];
            ready.push(ReadyFence { raw: f.raw, queue: f.queue, epoch: f.epoch });
            i += 1;
        }
        Ok(Ok(ready))
    } else if result == vulkan::RESULT_TIMEOUT {
        Ok(Err(fences))
    } else {
        Err(DeviceError::from_vk_result(result))
    }
}

} // verus!
