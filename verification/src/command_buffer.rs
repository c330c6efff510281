//! Command pools and command buffers tagged at the type level with their
//! queue capability, their recording state, whether they can be reset on
//! their own, and their level.

use vstd::prelude::*;
use core::marker::PhantomData;
use crate::vulkan;
use crate::capability::Capability;
use crate::capability::Transfer;
use crate::capability::Graphics;
use crate::capability::Compute;
use crate::capability::General;
use crate::command::FamilyId;
use crate::errors::OomError;

verus! {

/// Level of a command buffer.
pub trait Level {
    spec fn spec_level() -> i32;

    fn level() -> (r: i32)
        ensures
            r == Self::spec_level(),
    ;
}

/// How a recorded command buffer may be submitted.
pub trait Usage {
    spec fn spec_flags() -> u32;

    fn flags() -> (r: u32)
        ensures
            r == Self::spec_flags(),
    ;
}

/// States from which a command buffer may be reset.
pub trait Resettable {}

/// Primary command buffers are submitted to queues.
pub struct Primary;

impl Level for Primary {
    open spec fn spec_level() -> i32 {
        vulkan::COMMAND_BUFFER_LEVEL_PRIMARY
    }

    fn level() -> (r: i32) {
        vulkan::COMMAND_BUFFER_LEVEL_PRIMARY
    }
}

/// Secondary command buffers are executed by primary ones.
pub struct Secondary;

impl Level for Secondary {
    open spec fn spec_level() -> i32 {
        vulkan::COMMAND_BUFFER_LEVEL_SECONDARY
    }

    fn level() -> (r: i32) {
        vulkan::COMMAND_BUFFER_LEVEL_SECONDARY
    }
}

/// Submitted once, then invalid.
pub struct OneTimeUse;

impl Usage for OneTimeUse {
    open spec fn spec_flags() -> u32 {
        vulkan::COMMAND_BUFFER_USAGE_ONE_TIME_SUBMIT
    }

    fn flags() -> (r: u32) {
        vulkan::COMMAND_BUFFER_USAGE_ONE_TIME_SUBMIT
    }
}

/// Submitted any number of times; `MultiUse<Simultaneous>` also while
/// pending.
pub struct MultiUse<S = ()>(pub S);

impl Usage for MultiUse {
    open spec fn spec_flags() -> u32 {
        0
    }

    fn flags() -> (r: u32) {
        0
    }
}

/// Marks a multi-use buffer that may be pending more than once.
pub struct Simultaneous;

impl Usage for MultiUse<Simultaneous> {
    open spec fn spec_flags() -> u32 {
        vulkan::COMMAND_BUFFER_USAGE_SIMULTANEOUS_USE
    }

    fn flags() -> (r: u32) {
        vulkan::COMMAND_BUFFER_USAGE_SIMULTANEOUS_USE
    }
}

/// Nothing recorded yet.
pub struct Initial;

/// Being recorded, with its usage and tracker.
pub struct Recording<U, T>(pub U, pub T);

/// Recorded and ready to submit.
pub struct Executable<U, T>(pub U, pub T);

/// Submitted; becomes `N` when the device is done with it.
pub struct Pending<N>(pub N);

/// Can only be reset or freed.
pub struct Invalid;

impl Resettable for Initial {}

impl<U, T> Resettable for Recording<U, T> {}

impl<U, T> Resettable for Executable<U, T> {}

impl Resettable for Invalid {}

/// How a pool's command buffers may be reset.
pub trait PoolUsage {
    spec fn spec_flags() -> u32;

    fn flags() -> (r: u32)
        ensures
            r == Self::spec_flags(),
    ;
}

/// Buffers of the pool can be reset one by one. Only used as a marker.
pub struct ResetBuffer;

impl PoolUsage for ResetBuffer {
    open spec fn spec_flags() -> u32 {
        vulkan::COMMAND_POOL_CREATE_RESET_COMMAND_BUFFER
    }

    fn flags() -> (r: u32) {
        vulkan::COMMAND_POOL_CREATE_RESET_COMMAND_BUFFER
    }
}

/// Buffers of the pool are only reset with the pool. Only used as a marker.
pub struct NoResetBuffer;

impl PoolUsage for NoResetBuffer {
    open spec fn spec_flags() -> u32 {
        0
    }

    fn flags() -> (r: u32) {
        0
    }
}

/// A command pool of a queue family.
pub struct Pool<C = Capability, R = NoResetBuffer> {
    pub raw: u64,
    pub family: FamilyId<C>,
    pub markers: PhantomData<R>,
}

/// A command buffer of a queue family, in state `S`.
pub struct Buffer<C, S, R = NoResetBuffer, L = Primary> {
    pub raw: u64,
    pub family: FamilyId<C>,
    pub state: S,
    pub markers: PhantomData<(R, L)>,
}

impl<C: Copy, R> Pool<C, R> {
    pub fn from_raw(raw: u64, family: FamilyId<C>) -> (r: Self)
        ensures
            r.raw == raw,
            r.family.index == family.index,
            r.family.capability == family.capability,
    {
        Pool { raw, family, markers: PhantomData }
    }

    /// The buffers a pool allocates: all the handles the device gave, each
    /// in the initial state; an out-of-memory code is an error. Other codes
    /// do not occur.
    pub fn allocate<L: Level>(&self, result: i32, raws: Vec<u64>) -> (r: Result<Vec<Buffer<C, Initial, R, L>>, OomError>)
        requires
            result == vulkan::RESULT_SUCCESS || OomError::is_oom_code(result),
        ensures
            result == vulkan::RESULT_SUCCESS ==> (r matches Ok(buffers) && buffers@.len() == raws@.len()
                && forall|i: int| 0 <= i < raws@.len() ==> (#[trigger] buffers@[i]).raw == raws@[i]
                    && buffers@[i].family.index == self.family.index
                    && buffers@[i].family.capability == self.family.capability),
            result != vulkan::RESULT_SUCCESS ==> r == Err::<Vec<Buffer<C, Initial, R, L>>, OomError>(OomError::spec_from_vk_result(result)),
    {
        if result != vulkan::RESULT_SUCCESS {
            return Err(OomError::from_vk_result(result));
        }
        let mut buffers: Vec<Buffer<C, Initial, R, L>> = Vec::new();
        let mut i: usize = 0;
        while i < raws.len()
            invariant
                i <= raws@.len(),
                buffers@.len() == i,
                forall|k: int| 0 <= k < i ==> (#[trigger] buffers@[k]).raw == raws@[k]
                    && buffers@[k].family.index == self.family.index
                    && buffers@[k].family.capability == self.family.capability,
            decreases raws@.len() - i,
        {
            buffers.push(Buffer::from_raw(raws[i], self.family, Initial));
            i += 1;
        }
        Ok(buffers)
    }
}

impl<R> Pool<Capability, R> {
    /// Capability of the pool's family.
    pub fn capability(&self) -> (r: Capability)
        ensures
            r == self.family.capability,
    {
        self.family.capability()
    }

    /// The same pool, known to support transfers.
    pub fn transfer(self) -> (r: Pool<Transfer, R>)
        requires
            self.family.capability.spec_supports(Capability::Transfer),
        ensures
            r.raw == self.raw,
            r.family.index == self.family.index,
    {
        Pool { raw: self.raw, family: self.family.transfer(), markers: PhantomData }
    }

    /// The same pool, known to support graphics.
    pub fn graphics(self) -> (r: Pool<Graphics, R>)
        requires
            self.family.capability.spec_supports(Capability::Graphics),
        ensures
            r.raw == self.raw,
            r.family.index == self.family.index,
    {
        Pool { raw: self.raw, family: self.family.graphics(), markers: PhantomData }
    }

    /// The same pool, known to support compute.
    pub fn compute(self) -> (r: Pool<Compute, R>)
        requires
            self.family.capability.spec_supports(Capability::Compute),
        ensures
            r.raw == self.raw,
            r.family.index == self.family.index,
    {
        Pool { raw: self.raw, family: self.family.compute(), markers: PhantomData }
    }

    /// The same pool, known to support everything.
    pub fn general(self) -> (r: Pool<General, R>)
        requires
            self.family.capability.spec_supports(Capability::General),
        ensures
            r.raw == self.raw,
            r.family.index == self.family.index,
    {
        Pool { raw: self.raw, family: self.family.general(), markers: PhantomData }
    }
}

impl<C, S, R, L> Buffer<C, S, R, L> {
    pub fn from_raw(raw: u64, family: FamilyId<C>, state: S) -> (r: Self)
        ensures
            r.raw == raw,
            r.family.index == family.index,
            r.family.capability == family.capability,
            r.state == state,
    {
        Buffer { raw, family, state, markers: PhantomData }
    }
}

impl<S, R, L> Buffer<Capability, S, R, L> {
    /// The same buffer, known to support transfers.
    pub fn transfer(self) -> (r: Buffer<Transfer, S, R, L>)
        requires
            self.family.capability.spec_supports(Capability::Transfer),
        ensures
            r.raw == self.raw,
            r.family.index == self.family.index,
    {
        Buffer { raw: self.raw, family: self.family.transfer(), state: self.state, markers: PhantomData }
    }

    /// The same buffer, known to support graphics.
    pub fn graphics(self) -> (r: Buffer<Graphics, S, R, L>)
        requires
            self.family.capability.spec_supports(Capability::Graphics),
        ensures
            r.raw == self.raw,
            r.family.index == self.family.index,
    {
        Buffer { raw: self.raw, family: self.family.graphics(), state: self.state, markers: PhantomData }
    }

    /// The same buffer, known to support compute.
    pub fn compute(self) -> (r: Buffer<Compute, S, R, L>)
        requires
            self.family.capability.spec_supports(Capability::Compute),
        ensures
            r.raw == self.raw,
            r.family.index == self.family.index,
    {
        Buffer { raw: self.raw, family: self.family.compute(), state: self.state, markers: PhantomData }
    }

    /// The same buffer, known to support everything.
    pub fn general(self) -> (r: Buffer<General, S, R, L>)
        requires
            self.family.capability.spec_supports(Capability::General),
        ensures
            r.raw == self.raw,
            r.family.index == self.family.index,
    {
        Buffer { raw: self.raw, family: self.family.general(), state: self.state, markers: PhantomData }
    }
}

} // verus!
