//! A timeline fence built from binary fences and semaphores: each signal
//! takes a fence and a semaphore from pools and raises the CPU value; the
//! GPU value rises as the oldest fences are seen complete.

use vstd::prelude::*;
use std::collections::VecDeque;

verus! {

/// Signals a semaphore wait list may grow to before a signal waits on the
/// oldest entries.
pub const WAIT_THRESHOLD: usize = 20;

/// Entries of the wait list a signal waits on once it is over the threshold.
pub const WAIT_COUNT: usize = 10;

/// Objects in use, in the order they were taken, and free objects, the
/// most recently freed last.
pub struct ObjectPool {
    pub used_objects: VecDeque<u64>,
    pub free_objects: VecDeque<u64>,
}

/// The pool after its oldest used object was marked free: it is added to
/// the free objects but stays in use.
pub open spec fn spec_pop_front(used: Seq<u64>, free: Seq<u64>) -> (Seq<u64>, Seq<u64>) {
    if used.len() > 0 { (used, free.push(used[0])) } else { (used, free) }
}

/// The pool after `k` such markings.
pub open spec fn spec_pop_front_n(used: Seq<u64>, free: Seq<u64>, k: nat) -> (Seq<u64>, Seq<u64>)
    decreases k,
{
    if k == 0 {
        (used, free)
    } else {
        let (u, f) = spec_pop_front_n(used, free, (k - 1) as nat);
        spec_pop_front(u, f)
    }
}

impl ObjectPool {
    pub fn new() -> (r: Self)
        ensures
            r.used_objects@.len() == 0,
            r.free_objects@.len() == 0,
    {
        ObjectPool { used_objects: VecDeque::new(), free_objects: VecDeque::new() }
    }

    /// Take an object for use: the most recently freed one (which the
    /// caller resets), or `fresh`, newly created, when none is free.
    pub fn get(&mut self, fresh: Option<u64>) -> (r: u64)
        requires
            fresh is Some <==> old(self).free_objects@.len() == 0,
        ensures
            old(self).free_objects@.len() > 0 ==> {
                &&& r == old(self).free_objects@.last()
                &&& final(self).free_objects@ == old(self).free_objects@.drop_last()
            },
            old(self).free_objects@.len() == 0 ==> {
                &&& r == fresh->0
                &&& final(self).free_objects@ == old(self).free_objects@
            },
            final(self).used_objects@ == old(self).used_objects@.push(r),
    {
        match self.free_objects.pop_back() {
            Some(object) => {
                self.used_objects.push_back(object);
                object
            },
            None => {
                let object = match fresh {
                    Some(o) => o,
                    None => 0,
                };
                self.used_objects.push_back(object);
                object
            },
        }
    }

    /// Free every object in use.
    pub fn pop_all(&mut self)
        ensures
            final(self).free_objects@ == old(self).free_objects@ + old(self).used_objects@,
            final(self).used_objects@.len() == 0,
    {
        let mut i: usize = 0;
        while i < self.used_objects.len()
            invariant
                i <= self.used_objects@.len(),
                self.used_objects@ == old(self).used_objects@,
                self.free_objects@ == old(self).free_objects@ + old(self).used_objects@.take(i as int),
            decreases self.used_objects@.len() - i,
        {
            let o = self.used_objects[i];
            self.free_objects.push_back(o);
            i += 1;
            assert(self.free_objects@ =~= old(self).free_objects@ + old(self).used_objects@.take(i as int));
        }
        assert(old(self).used_objects@.take(i as int) =~= old(self).used_objects@);
        self.used_objects.clear();
    }

    /// Mark the oldest object in use as free. It is not removed from the
    /// objects in use.
    pub fn pop_front(&mut self)
        ensures
            (final(self).used_objects@, final(self).free_objects@)
                == spec_pop_front(old(self).used_objects@, old(self).free_objects@),
    {
        if self.used_objects.len() > 0 {
            let o = self.used_objects[0];
            self.free_objects.push_back(o);
        }
    }

    /// The oldest object in use.
    pub fn front(&self) -> (r: Option<u64>)
        ensures
            r == (if self.used_objects@.len() > 0 { Some(self.used_objects@[0]) } else { None::<u64> }),
    {
        if self.used_objects.len() > 0 {
            Some(self.used_objects[0])
        } else {
            None
        }
    }

    pub fn has_used(&self) -> (r: bool)
        ensures
            r == (self.used_objects@.len() > 0),
    {
        self.used_objects.len() > 0
    }
}

/// A timeline fence: fences and semaphores in use and free, the semaphores
/// later signals wait on, and the values reached by the device and
/// promised by the host.
pub struct FenceState {
    pub semaphores: ObjectPool,
    pub fences: ObjectPool,
    pub wait_list: Vec<u64>,
    pub gpu_value: u64,
    pub cpu_value: u64,
}

/// What a signal submits: the fence it arms, the semaphore it signals
/// (each reused or new), the semaphores it waits on, and the value it
/// stands for.
pub struct SignalPlan {
    pub fence: u64,
    pub semaphore: u64,
    pub wait_semaphores: Vec<u64>,
    pub value: u64,
}

impl FenceState {
    pub fn new() -> (r: Self)
        ensures
            r.gpu_value == 0,
            r.cpu_value == 1,
            r.wait_list@.len() == 0,
            r.fences.used_objects@.len() == 0 && r.fences.free_objects@.len() == 0,
            r.semaphores.used_objects@.len() == 0 && r.semaphores.free_objects@.len() == 0,
    {
        FenceState {
            semaphores: ObjectPool::new(),
            fences: ObjectPool::new(),
            wait_list: Vec::new(),
            gpu_value: 0,
            cpu_value: 1,
        }
    }

    pub fn cpu_value(&self) -> (r: u64)
        ensures
            r == self.cpu_value,
    {
        self.cpu_value
    }

    /// Take note of whether the oldest fence in use is complete. A complete
    /// fence raises the GPU value and is marked free (it stays in use, so
    /// the same fence is looked at next); the result says whether to look
    /// again.
    pub fn observe_front_fence(&mut self, complete: bool) -> (again: bool)
        requires
            old(self).fences.used_objects@.len() > 0,
            complete ==> old(self).gpu_value < u64::MAX,
        ensures
            again == complete,
            complete ==> final(self).gpu_value == old(self).gpu_value + 1,
            !complete ==> final(self).gpu_value == old(self).gpu_value,
            complete ==> (final(self).fences.used_objects@, final(self).fences.free_objects@)
                == spec_pop_front(old(self).fences.used_objects@, old(self).fences.free_objects@),
            !complete ==> final(self).fences.used_objects@ == old(self).fences.used_objects@
                && final(self).fences.free_objects@ == old(self).fences.free_objects@,
            final(self).semaphores.used_objects@ == old(self).semaphores.used_objects@,
            final(self).semaphores.free_objects@ == old(self).semaphores.free_objects@,
            final(self).wait_list@ == old(self).wait_list@,
            final(self).cpu_value == old(self).cpu_value,
    {
        if complete {
            self.fences.pop_front();
            self.gpu_value = self.gpu_value + 1;
            true
        } else {
            false
        }
    }

    /// Semaphores marked free once the GPU value is read: as many as are
    /// in use beyond both the fences in use and the waits pending.
    pub open spec fn spec_release_count(&self) -> nat {
        let s = self.semaphores.used_objects@.len();
        let f = self.fences.used_objects@.len();
        let w = self.wait_list@.len();
        let a = (s - w) as nat;
        let b = (s - f) as nat;
        if a < b { a } else { b }
    }

    /// Mark free the semaphores no longer waited on or fenced.
    pub fn release_semaphores(&mut self)
        requires
            old(self).fences.used_objects@.len() <= old(self).semaphores.used_objects@.len(),
            old(self).wait_list@.len() <= old(self).semaphores.used_objects@.len(),
        ensures
            (final(self).semaphores.used_objects@, final(self).semaphores.free_objects@) == spec_pop_front_n(
                old(self).semaphores.used_objects@,
                old(self).semaphores.free_objects@,
                old(self).spec_release_count(),
            ),
            final(self).fences.used_objects@ == old(self).fences.used_objects@,
            final(self).fences.free_objects@ == old(self).fences.free_objects@,
            final(self).wait_list@ == old(self).wait_list@,
            final(self).gpu_value == old(self).gpu_value,
            final(self).cpu_value == old(self).cpu_value,
    {
        let semaphore_count = self.semaphores.used_objects.len();
        let fence_count = self.fences.used_objects.len();
        let fence_delta = semaphore_count - fence_count;
        let wait_count = self.wait_list.len();
        let wait_delta = semaphore_count - wait_count;
        let pop_count = if wait_delta < fence_delta { wait_delta } else { fence_delta };
        let mut k: usize = 0;
        while k < pop_count
            invariant
                k <= pop_count,
                pop_count == old(self).spec_release_count(),
                (self.semaphores.used_objects@, self.semaphores.free_objects@) == spec_pop_front_n(
                    old(self).semaphores.used_objects@,
                    old(self).semaphores.free_objects@,
                    k as nat,
                ),
                self.fences.used_objects@ == old(self).fences.used_objects@,
                self.fences.free_objects@ == old(self).fences.free_objects@,
                self.wait_list@ == old(self).wait_list@,
                self.gpu_value == old(self).gpu_value,
                self.cpu_value == old(self).cpu_value,
            decreases pop_count - k,
        {
            self.semaphores.pop_front();
            k += 1;
        }
    }

    /// Raise the host value and plan a signal: take a fence and a semaphore
    /// (`fresh_*` are new objects for pools with none free), add the
    /// semaphore to the wait list, wait on the oldest waits once the list
    /// is over the threshold and then drop them from it.
    pub fn signal_gpu(&mut self, fresh_fence: Option<u64>, fresh_semaphore: Option<u64>) -> (r: SignalPlan)
        requires
            old(self).cpu_value < u64::MAX,
            fresh_fence is Some <==> old(self).fences.free_objects@.len() == 0,
            fresh_semaphore is Some <==> old(self).semaphores.free_objects@.len() == 0,
        ensures
            final(self).cpu_value == old(self).cpu_value + 1,
            r.value == old(self).cpu_value,
            final(self).fences.used_objects@ == old(self).fences.used_objects@.push(r.fence),
            final(self).semaphores.used_objects@ == old(self).semaphores.used_objects@.push(r.semaphore),
            old(self).fences.free_objects@.len() == 0 ==> r.fence == fresh_fence->0,
            old(self).fences.free_objects@.len() > 0 ==> r.fence == old(self).fences.free_objects@.last(),
            old(self).semaphores.free_objects@.len() == 0 ==> r.semaphore == fresh_semaphore->0,
            old(self).semaphores.free_objects@.len() > 0 ==> r.semaphore == old(self).semaphores.free_objects@.last(),
            ({
                let waits = old(self).wait_list@.push(r.semaphore);
                &&& waits.len() > WAIT_THRESHOLD ==> r.wait_semaphores@ == waits.take(WAIT_COUNT as int)
                    && final(self).wait_list@ == waits.skip(WAIT_THRESHOLD as int)
                &&& waits.len() <= WAIT_THRESHOLD ==> r.wait_semaphores@.len() == 0
                    && final(self).wait_list@ == waits
            }),
            old(self).wait_list@.len() <= WAIT_THRESHOLD ==> final(self).wait_list@.len() <= WAIT_THRESHOLD,
            final(self).gpu_value == old(self).gpu_value,
    {
        self.cpu_value = self.cpu_value + 1;
        let fence = self.fences.get(fresh_fence);
        let semaphore = self.semaphores.get(fresh_semaphore);
        self.wait_list.push(semaphore);
        let ghost waits = self.wait_list@;
        let mut wait_semaphores: Vec<u64> = Vec::new();
        if self.wait_list.len() > WAIT_THRESHOLD {
            let mut i: usize = 0;
            while i < WAIT_COUNT
                invariant
                    i <= WAIT_COUNT,
                    self.wait_list@ == waits,
                    waits.len() > WAIT_THRESHOLD,
                    wait_semaphores@ == waits.take(i as int),
                decreases WAIT_COUNT - i,
            {
                wait_semaphores.push(self.wait_list[i]);
                i += 1;
                assert(wait_semaphores@ =~= waits.take(i as int));
            }
            let mut rest: Vec<u64> = Vec::new();
            let mut j: usize = WAIT_THRESHOLD;
            while j < self.wait_list.len()
                invariant
                    WAIT_THRESHOLD <= j <= waits.len(),
                    self.wait_list@ == waits,
                    rest@ == waits.subrange(WAIT_THRESHOLD as int, j as int),
                decreases waits.len() - j,
            {
                rest.push(self.wait_list[j]);
                j += 1;
                assert(rest@ =~= waits.subrange(WAIT_THRESHOLD as int, j as int));
            }
            assert(rest@ =~= waits.skip(WAIT_THRESHOLD as int));
            self.wait_list = rest;
        }
        SignalPlan { fence, semaphore, wait_semaphores, value: (self.cpu_value - 1) as u64 }
    }

    /// The semaphores a GPU-side wait waits on: the whole wait list (none
    /// when it is empty).
    pub fn sync_gpu_waits(&self) -> (r: Vec<u64>)
        ensures
            r@ == self.wait_list@,
    {
        self.wait_list.clone()
    }

    /// The fences a CPU-side wait waits on: all fences in use.
    pub fn sync_cpu_fences(&self) -> (r: Vec<u64>)
        ensures
            r@ == self.fences.used_objects@,
    {
        let mut r: Vec<u64> = Vec::new();
        let mut i: usize = 0;
        while i < self.fences.used_objects.len()
            invariant
                i <= self.fences.used_objects@.len(),
                r@ == self.fences.used_objects@.take(i as int),
            decreases self.fences.used_objects@.len() - i,
        {
            r.push(self.fences.used_objects[i]);
            i += 1;
            assert(r@ =~= self.fences.used_objects@.take(i as int));
        }
        assert(self.fences.used_objects@.take(i as int) =~= self.fences.used_objects@);
        r
    }
}

} // verus!
