//! The per-frame linear allocator for host-visible upload memory: memory
//! comes in blocks, each block is filled front to back, and a reset frees
//! everything at once (compacting several blocks into one).

use vstd::prelude::*;

verus! {

pub const DEFAULT_ALIGNMENT: usize = 256;
pub const MAX_ALIGNMENT: usize = 65536;

/// `addr` rounded up to the next multiple of `align`.
pub open spec fn spec_align_forward(addr: int, align: int) -> int {
    ((addr + align - 1) / align) * align
}

/// Round `addr` up to the next multiple of `align`.
pub fn align_forward(addr: usize, align: usize) -> (r: usize)
    requires
        align > 0,
        addr + align - 1 <= usize::MAX,
    ensures
        r == spec_align_forward(addr as int, align as int),
        r % align == 0,
        addr <= r < addr + align,
{
    proof {
        lemma_align_forward(addr as int, align as int);
    }
    let q = (addr + (align - 1)) / align;
    assert(q * align == spec_align_forward(addr as int, align as int));
    q * align
}

/// The rounded-up address is a multiple of the alignment and less than one
/// alignment past the address.
pub proof fn lemma_align_forward(addr: int, align: int)
    requires
        align > 0,
        addr >= 0,
    ensures
        spec_align_forward(addr, align) % align == 0,
        addr <= spec_align_forward(addr, align) < addr + align,
        spec_align_forward(addr, align) <= addr + align - 1,
{
    let q = (addr + align - 1) / align;
    let m = (addr + align - 1) % align;
    assert(addr + align - 1 == q * align + m) by (nonlinear_arith)
        requires align > 0, q == (addr + align - 1) / align, m == (addr + align - 1) % align;
    assert(0 <= m < align) by (nonlinear_arith)
        requires align > 0, m == (addr + align - 1) % align;
    assert((q * align) % align == 0) by (nonlinear_arith)
        requires align > 0;
}

/// A block of mapped upload memory: its buffer, its memory and size, and
/// the offset up to which it is in use.
#[derive(Clone, Copy, Debug, PartialEq, Eq, Structural)]
pub struct ResourceBlock {
    pub buffer: u64,
    pub device_memory: u64,
    pub size: usize,
    pub current_offset: usize,
}

/// A range of upload memory handed out by the allocator.
#[derive(Clone, Copy, Debug, PartialEq, Eq, Structural)]
pub struct HostLinearAllocation {
    /// Buffer we're pointing to.
    pub buffer: u64,
    /// Device memory.
    pub device_memory: u64,
    /// Offset within the buffer.
    pub offset: usize,
    /// Size of allocation.
    pub size: usize,
}

/// What a reset found: the bytes in use and the total size of the blocks,
/// and the number of blocks created since the previous reset.
#[derive(Clone, Copy, Debug, PartialEq, Eq, Structural)]
pub struct ResetSummary {
    pub total_usage: usize,
    pub total_size: usize,
    pub blocks_created: usize,
}

/// The block with nothing in use.
pub open spec fn emptied(b: ResourceBlock) -> ResourceBlock {
    ResourceBlock { current_offset: 0, ..b }
}

pub struct HostLinearAllocator {
    pub blocks: Vec<ResourceBlock>,
    pub blocks_created: usize,
    pub min_resource_block_size: usize,
    /// The allocations handed out since the last reset, in order: the
    /// index of the block each came from, its offset and its size.
    pub issued: Ghost<Seq<(int, int, int)>>,
}

/// Allocations handed out from the blocks lie in the used part of their
/// block, and of two allocations from the same block the earlier one ends
/// at or before the start of the later one: no two overlap.
pub open spec fn issued_apart(blocks: Seq<ResourceBlock>, issued: Seq<(int, int, int)>) -> bool {
    &&& forall|k: int| 0 <= k < issued.len() ==> {
        &&& 0 <= (#[trigger] issued[k]).0 < blocks.len()
        &&& 0 <= issued[k].1
        &&& 0 <= issued[k].2
        &&& issued[k].1 + issued[k].2 <= blocks[issued[k].0].current_offset
    }
    &&& forall|k: int, l: int| 0 <= k < l < issued.len() && (#[trigger] issued[k]).0 == (#[trigger] issued[l]).0
        ==> issued[k].1 + issued[k].2 <= issued[l].1
}

/// Bytes still free in a block when the next allocation is aligned to `alignment`.
pub open spec fn block_fits(b: ResourceBlock, size: usize, alignment: usize) -> bool {
    spec_align_forward(b.current_offset as int, alignment as int) + size <= b.size
}

pub open spec fn is_first_fit(blocks: Seq<ResourceBlock>, size: usize, alignment: usize, i: int) -> bool {
    &&& 0 <= i < blocks.len()
    &&& block_fits(blocks[i], size, alignment)
    &&& forall|j: int| 0 <= j < i ==> !block_fits(blocks[j], size, alignment)
}

/// Number of blocks that are in use.
pub open spec fn spec_active_count(blocks: Seq<ResourceBlock>) -> nat
    decreases blocks.len(),
{
    if blocks.len() == 0 {
        0
    } else {
        spec_active_count(blocks.drop_last()) + if blocks.last().current_offset > 0 { 1nat } else { 0nat }
    }
}

pub open spec fn sum_offsets(blocks: Seq<ResourceBlock>) -> int
    decreases blocks.len(),
{
    if blocks.len() == 0 { 0 } else { sum_offsets(blocks.drop_last()) + blocks.last().current_offset }
}

pub open spec fn sum_sizes(blocks: Seq<ResourceBlock>) -> int
    decreases blocks.len(),
{
    if blocks.len() == 0 { 0 } else { sum_sizes(blocks.drop_last()) + blocks.last().size }
}


/// Upper bound on the sum of all block sizes: half the address space,
/// rounded down to a multiple of `MAX_ALIGNMENT`, so that offsets can always
/// be rounded up to `MAX_ALIGNMENT` and a size within it stays within it
/// when rounded up.
pub open spec fn heap_limit() -> int {
    (usize::MAX as int / 2) / (MAX_ALIGNMENT as int) * (MAX_ALIGNMENT as int)
}

/// A size within the heap limit stays within it when rounded up to
/// `MAX_ALIGNMENT`.
pub proof fn lemma_align_within_heap_limit(x: int)
    requires
        0 <= x <= heap_limit(),
    ensures
        spec_align_forward(x, MAX_ALIGNMENT as int) <= heap_limit(),
{
    let k = (usize::MAX as int / 2) / 65536;
    assert(heap_limit() == k * 65536);
    assert((x + 65535) / 65536 <= k) by (nonlinear_arith)
        requires
            x <= k * 65536,
            x >= 0,
    ;
    assert(((x + 65535) / 65536) * 65536 <= k * 65536) by (nonlinear_arith)
        requires
            (x + 65535) / 65536 <= k,
    ;
}

/// Size of a new block for a request of `size` bytes: at least the minimum
/// block size, rounded up to the largest alignment.
pub open spec fn spec_resource_block_size(min_size: int, size: int) -> int {
    spec_align_forward(if size > min_size { size } else { min_size }, MAX_ALIGNMENT as int)
}

/// Rounding any value up to the heap limit to `MAX_ALIGNMENT` fits a `usize`.
pub proof fn lemma_heap_limit_headroom()
    ensures
        heap_limit() + MAX_ALIGNMENT <= usize::MAX,
        heap_limit() >= 0,
{
    assert(usize::MAX >= 0xffff_ffff) by {
        assert(usize::BITS == 32 || usize::BITS == 64);
    }
    let k = (usize::MAX as int / 2) / 65536;
    assert(k * 65536 <= usize::MAX as int / 2);
    assert(k >= 0);
}

/// The total size of a prefix of the blocks is at most the total size.
pub proof fn lemma_sum_sizes_prefix(blocks: Seq<ResourceBlock>, i: int)
    requires
        0 <= i <= blocks.len(),
    ensures
        sum_sizes(blocks.take(i)) <= sum_sizes(blocks),
        sum_offsets(blocks.take(i)) <= sum_offsets(blocks),
    decreases blocks.len(),
{
    if i == blocks.len() {
        assert(blocks.take(i) =~= blocks);
    } else {
        assert(blocks.drop_last().take(i) =~= blocks.take(i));
        lemma_sum_sizes_prefix(blocks.drop_last(), i);
    }
}

/// Each block's size is at most the total size.
pub proof fn lemma_block_size_within_sum(blocks: Seq<ResourceBlock>, i: int)
    requires
        0 <= i < blocks.len(),
    ensures
        blocks[i].size <= sum_sizes(blocks),
    decreases blocks.len(),
{
    lemma_sum_sizes_nonneg(blocks.drop_last());
    if i < blocks.len() - 1 {
        lemma_block_size_within_sum(blocks.drop_last(), i);
    }
}

/// Total sizes are never negative.
pub proof fn lemma_sum_sizes_nonneg(blocks: Seq<ResourceBlock>)
    ensures
        sum_sizes(blocks) >= 0,
    decreases blocks.len(),
{
    if blocks.len() > 0 {
        lemma_sum_sizes_nonneg(blocks.drop_last());
    }
}

impl HostLinearAllocator {
    /// Every block is used only up to its size, the sizes together stay
    /// within the heap limit, and so does the minimum block size.
    pub open spec fn wf(&self) -> bool {
        &&& forall|i: int| 0 <= i < self.blocks@.len() ==> self.blocks@[i].current_offset <= self.blocks@[i].size
        &&& sum_sizes(self.blocks@) <= heap_limit()
        &&& self.min_resource_block_size <= heap_limit()
        &&& issued_apart(self.blocks@, self.issued@)
    }

    pub fn new(min_resource_block_size: usize) -> (r: Self)
        requires
            min_resource_block_size <= heap_limit(),
        ensures
            r.wf(),
            r.blocks@ == Seq::<ResourceBlock>::empty(),
            r.blocks_created == 0,
            r.min_resource_block_size == min_resource_block_size,
            r.issued@ == Seq::<(int, int, int)>::empty(),
    {
        HostLinearAllocator { blocks: Vec::new(), blocks_created: 0, min_resource_block_size, issued: Ghost(Seq::empty()) }
    }

    /// The first block with room for `size` bytes at `alignment`.
    pub fn free_block_index(&self, size: usize, alignment: usize) -> (r: Option<usize>)
        requires
            self.wf(),
            0 < alignment <= MAX_ALIGNMENT,
        ensures
            match r {
                Some(i) => is_first_fit(self.blocks@, size, alignment, i as int),
                None => forall|j: int| 0 <= j < self.blocks@.len() ==> !block_fits(self.blocks@[j], size, alignment),
            },
    {
        let mut block_index: usize = 0;
        while block_index < self.blocks.len()
            invariant
                self.wf(),
                0 < alignment <= MAX_ALIGNMENT,
                block_index <= self.blocks@.len(),
                forall|j: int| 0 <= j < block_index ==> !block_fits(self.blocks@[j], size, alignment),
            decreases self.blocks@.len() - block_index,
        {
            proof {
                lemma_heap_limit_headroom();
                lemma_block_size_within_sum(self.blocks@, block_index as int);
            }
            let block = &self.blocks[block_index];
            let aligned_offset = align_forward(block.current_offset, alignment);
            if aligned_offset <= block.size && block.size - aligned_offset >= size {
                return Some(block_index);
            }
            block_index += 1;
        }
        None
    }

    /// Size of a new block for a request of `size` bytes.
    pub fn resource_block_size(&self, size: usize) -> (r: usize)
        requires
            self.wf(),
            size <= heap_limit(),
        ensures
            r == spec_resource_block_size(self.min_resource_block_size as int, size as int),
            r >= size,
            r >= self.min_resource_block_size,
    {
        proof {
            lemma_heap_limit_headroom();
        }
        let wanted = if size > self.min_resource_block_size { size } else { self.min_resource_block_size };
        align_forward(wanted, MAX_ALIGNMENT)
    }

    /// Take a newly created, empty block into use. All blocks are mapped
    /// again after a block is added, which is only allowed while no block
    /// is in use.
    pub fn add_block(&mut self, buffer: u64, device_memory: u64, size: usize) -> (r: usize)
        requires
            old(self).wf(),
            spec_active_count(old(self).blocks@) == 0,
            sum_sizes(old(self).blocks@) + size <= heap_limit(),
            old(self).blocks_created < usize::MAX,
        ensures
            final(self).wf(),
            r == old(self).blocks@.len(),
            final(self).blocks@ == old(self).blocks@.push(ResourceBlock { buffer, device_memory, size, current_offset: 0 }),
            final(self).blocks_created == old(self).blocks_created + 1,
            final(self).min_resource_block_size == old(self).min_resource_block_size,
            final(self).issued@ == old(self).issued@,
    {
        let ghost before = self.blocks@;
        self.blocks.push(ResourceBlock { buffer, device_memory, size, current_offset: 0 });
        assert(self.blocks@.drop_last() =~= before);
        assert forall|k: int| 0 <= k < self.issued@.len() implies {
            &&& 0 <= (#[trigger] self.issued@[k]).0 < self.blocks@.len()
            &&& 0 <= self.issued@[k].1
            &&& 0 <= self.issued@[k].2
            &&& self.issued@[k].1 + self.issued@[k].2 <= self.blocks@[self.issued@[k].0].current_offset
        } by {
            assert(self.blocks@[self.issued@[k].0] == before[self.issued@[k].0]);
        }
        self.blocks_created = self.blocks_created + 1;
        self.blocks.len() - 1
    }

    /// Carve `size` bytes at `alignment` out of block `block_index`, which
    /// must have room: the allocation starts at the block's offset rounded
    /// up, and the block's offset moves past it.
    pub fn allocate_from(&mut self, block_index: usize, size: usize, alignment: usize) -> (r: HostLinearAllocation)
        requires
            old(self).wf(),
            0 < alignment <= MAX_ALIGNMENT,
            block_index < old(self).blocks@.len(),
            block_fits(old(self).blocks@[block_index as int], size, alignment),
        ensures
            final(self).wf(),
            r == carve(old(self).blocks@[block_index as int], size, alignment),
            final(self).blocks@ == old(self).blocks@.update(
                block_index as int,
                advanced(old(self).blocks@[block_index as int], size, alignment),
            ),
            final(self).blocks_created == old(self).blocks_created,
            final(self).min_resource_block_size == old(self).min_resource_block_size,
            final(self).issued@ == old(self).issued@.push((block_index as int, r.offset as int, r.size as int)),
    {
        proof {
            lemma_heap_limit_headroom();
            lemma_block_size_within_sum(self.blocks@, block_index as int);
            lemma_sum_sizes_update(self.blocks@, block_index as int, advanced(self.blocks@[block_index as int], size, alignment));
        }
        let block = self.blocks[block_index];
        // Grab the correct offset; the block has room for the request.
        let aligned_offset = align_forward(block.current_offset, alignment);
        // Advance current offset.
        let updated = ResourceBlock {
            buffer: block.buffer,
            device_memory: block.device_memory,
            size: block.size,
            current_offset: aligned_offset + size,
        };
        self.blocks.set(block_index, updated);
        let ghost entry = (block_index as int, aligned_offset as int, size as int);
        let ghost before = old(self).issued@;
        self.issued = Ghost(before.push(entry));
        proof {
            let issued = self.issued@;
            assert forall|k: int| 0 <= k < issued.len() implies {
                &&& 0 <= (#[trigger] issued[k]).0 < self.blocks@.len()
                &&& 0 <= issued[k].1
                &&& 0 <= issued[k].2
                &&& issued[k].1 + issued[k].2 <= self.blocks@[issued[k].0].current_offset
            } by {
                if k < before.len() {
                    assert(issued[k] == before[k]);
                    if before[k].0 == block_index as int {
                        assert(old(self).blocks@[block_index as int].current_offset <= aligned_offset);
                    }
                }
            }
            assert forall|k: int, l: int| 0 <= k < l < issued.len() && (#[trigger] issued[k]).0 == (#[trigger] issued[l]).0
                implies issued[k].1 + issued[k].2 <= issued[l].1 by {
                assert(issued[k] == before[k]);
                if l < before.len() {
                    assert(issued[l] == before[l]);
                } else {
                    assert(issued[l] == entry);
                }
            }
        }
        HostLinearAllocation {
            buffer: block.buffer,
            device_memory: block.device_memory,
            offset: aligned_offset,
            size,
        }
    }

    /// Allocate `size` bytes at `alignment` (256 when none is given) from
    /// the first block with room. When no block has room, `fresh` holds the
    /// buffer and memory of a new block of `resource_block_size(size)`
    /// bytes, which is added and carved from its start; growing is only
    /// allowed while no block is in use, since all blocks are mapped again.
    pub fn allocate(&mut self, size: usize, alignment: Option<usize>, fresh: Option<(u64, u64)>) -> (r: HostLinearAllocation)
        requires
            old(self).wf(),
            alignment matches Some(a) ==> 0 < a <= MAX_ALIGNMENT,
            fresh is Some <==> no_block_fits(old(self).blocks@, size, effective_alignment(alignment)),
            fresh is Some ==> {
                &&& spec_active_count(old(self).blocks@) == 0
                &&& sum_sizes(old(self).blocks@) + spec_resource_block_size(old(self).min_resource_block_size as int, size as int) <= heap_limit()
                &&& old(self).blocks_created < usize::MAX
            },
        ensures
            final(self).wf(),
            final(self).min_resource_block_size == old(self).min_resource_block_size,
            r.size == size,
            r.offset % effective_alignment(alignment) == 0,
            ({
                let a = effective_alignment(alignment);
                match fresh {
                    None => {
                        &&& final(self).blocks_created == old(self).blocks_created
                        &&& exists|i: int| {
                            &&& #[trigger] is_first_fit(old(self).blocks@, size, a, i)
                            &&& r == carve(old(self).blocks@[i], size, a)
                            &&& r.offset + size <= old(self).blocks@[i].size
                            &&& final(self).blocks@ == old(self).blocks@.update(i, advanced(old(self).blocks@[i], size, a))
                            &&& final(self).issued@ == old(self).issued@.push((i, r.offset as int, size as int))
                        }
                    },
                    Some((buffer, device_memory)) => {
                        let block = fresh_block(buffer, device_memory, old(self).min_resource_block_size, size);
                        &&& r == carve(block, size, a)
                        &&& r.offset == 0
                        &&& r.offset + size <= block.size
                        &&& final(self).blocks@ == old(self).blocks@.push(advanced(block, size, a))
                        &&& final(self).blocks_created == old(self).blocks_created + 1
                        &&& final(self).issued@ == old(self).issued@.push((old(self).blocks@.len() as int, 0, size as int))
                    },
                }
            }),
    {
        let a = match alignment {
            Some(a) => a,
            None => DEFAULT_ALIGNMENT,
        };
        assert(a == effective_alignment(alignment));
        match fresh {
            Some((buffer, device_memory)) => {
                let ghost min = self.min_resource_block_size;
                proof {
                    let wanted: int = if size > min { size as int } else { min as int };
                    lemma_align_forward(wanted, MAX_ALIGNMENT as int);
                    lemma_sum_sizes_nonneg(self.blocks@);
                    lemma_new_block_fits(min, size, a, buffer, device_memory);
                }
                let block_size = self.resource_block_size(size);
                let block_index = self.add_block(buffer, device_memory, block_size);
                assert(self.blocks@[block_index as int] == fresh_block(buffer, device_memory, min, size));
                let alloc = self.allocate_from(block_index, size, a);
                proof {
                    lemma_align_zero(a as int);
                    assert(0int % (a as int) == 0);
                }
                assert(self.blocks@ =~= old(self).blocks@.push(advanced(fresh_block(buffer, device_memory, min, size), size, a)));
                alloc
            },
            None => {
                // Some block has room whenever no fresh block is handed in.
                let block_index = match self.free_block_index(size, a) {
                    Some(i) => i,
                    None => 0,
                };
                let alloc = self.allocate_from(block_index, size, a);
                let ghost i = block_index as int;
                proof {
                    lemma_align_forward(old(self).blocks@[i].current_offset as int, a as int);
                }
                assert(is_first_fit(old(self).blocks@, size, a, i));
                assert(alloc == carve(old(self).blocks@[i], size, a));
                assert(self.blocks@ == old(self).blocks@.update(i, advanced(old(self).blocks@[i], size, a)));
                alloc
            },
        }
    }

    /// Number of blocks that are in use.
    pub fn active_block_count(&self) -> (r: usize)
        ensures
            r == spec_active_count(self.blocks@),
    {
        let mut count: usize = 0;
        let mut i: usize = 0;
        while i < self.blocks.len()
            invariant
                i <= self.blocks@.len(),
                count == spec_active_count(self.blocks@.take(i as int)),
                count <= i,
            decreases self.blocks@.len() - i,
        {
            proof {
                assert(self.blocks@.take(i + 1).drop_last() =~= self.blocks@.take(i as int));
            }
            count += if self.blocks[i].current_offset > 0 { 1 } else { 0 };
            i += 1;
        }
        assert(self.blocks@.take(i as int) =~= self.blocks@);
        count
    }

    /// Total size of the blocks.
    pub fn total_size(&self) -> (r: usize)
        requires
            self.wf(),
        ensures
            r == sum_sizes(self.blocks@),
    {
        let mut total: usize = 0;
        let mut i: usize = 0;
        while i < self.blocks.len()
            invariant
                self.wf(),
                i <= self.blocks@.len(),
                total == sum_sizes(self.blocks@.take(i as int)),
            decreases self.blocks@.len() - i,
        {
            proof {
                assert(self.blocks@.take(i + 1).drop_last() =~= self.blocks@.take(i as int));
                lemma_sum_sizes_prefix(self.blocks@, i + 1);
                lemma_heap_limit_headroom();
            }
            total = total + self.blocks[i].size;
            i += 1;
        }
        assert(self.blocks@.take(i as int) =~= self.blocks@);
        total
    }

    /// Size of the block that a reset compacts the blocks into: with more
    /// than one block, `resource_block_size` of their total size.
    pub fn compaction_size(&self) -> (r: Option<usize>)
        requires
            self.wf(),
        ensures
            r == (if self.blocks@.len() > 1 {
                Some(spec_resource_block_size(self.min_resource_block_size as int, sum_sizes(self.blocks@)) as usize)
            } else {
                None
            }),
    {
        if self.blocks.len() > 1 {
            let total = self.total_size();
            proof {
                lemma_heap_limit_headroom();
            }
            Some(self.resource_block_size(total))
        } else {
            None
        }
    }

    /// Free every allocation and start the count of blocks created over.
    /// With more than one block, the blocks are replaced by one empty block
    /// of `compaction_size()` bytes, whose buffer and memory `fresh` holds;
    /// otherwise the block, if any, is kept and emptied. The summary gives
    /// the bytes that were in use, the total block size and the count of
    /// blocks created.
    pub fn reset(&mut self, fresh: Option<(u64, u64)>) -> (r: ResetSummary)
        requires
            old(self).wf(),
            fresh is Some <==> old(self).blocks@.len() > 1,
        ensures
            final(self).wf(),
            r.total_usage == sum_offsets(old(self).blocks@),
            r.total_size == sum_sizes(old(self).blocks@),
            r.blocks_created == old(self).blocks_created,
            match fresh {
                Some((buffer, device_memory)) => final(self).blocks@ == seq![
                    fresh_block(buffer, device_memory, old(self).min_resource_block_size, sum_sizes(old(self).blocks@) as usize),
                ],
                None => final(self).blocks@ == old(self).blocks@.map_values(|b: ResourceBlock| emptied(b)),
            },
            fresh is Some ==> forall|size: usize, alignment: usize|
                0 < alignment && size <= sum_sizes(old(self).blocks@)
                    ==> #[trigger] block_fits(final(self).blocks@[0], size, alignment),
            spec_active_count(final(self).blocks@) == 0,
            final(self).blocks_created == 0,
            final(self).min_resource_block_size == old(self).min_resource_block_size,
            final(self).issued@ == Seq::<(int, int, int)>::empty(),
    {
        self.issued = Ghost(Seq::empty());
        let mut total_usage: usize = 0;
        let mut total_size: usize = 0;
        let mut i: usize = 0;
        while i < self.blocks.len()
            invariant
                old(self).wf(),
                self.issued@ == Seq::<(int, int, int)>::empty(),
                i <= self.blocks@.len(),
                self.blocks@.len() == old(self).blocks@.len(),
                self.min_resource_block_size == old(self).min_resource_block_size,
                self.blocks_created == old(self).blocks_created,
                sum_sizes(self.blocks@) == sum_sizes(old(self).blocks@),
                total_usage == sum_offsets(old(self).blocks@.take(i as int)),
                total_size == sum_sizes(old(self).blocks@.take(i as int)),
                total_usage <= total_size,
                forall|j: int| 0 <= j < i ==> self.blocks@[j] == emptied(old(self).blocks@[j]),
                forall|j: int| i <= j < self.blocks@.len() ==> self.blocks@[j] == old(self).blocks@[j],
            decreases self.blocks@.len() - i,
        {
            proof {
                assert(old(self).blocks@.take(i + 1).drop_last() =~= old(self).blocks@.take(i as int));
                lemma_sum_sizes_prefix(old(self).blocks@, i + 1);
                lemma_sum_sizes_update(self.blocks@, i as int, emptied(self.blocks@[i as int]));
                lemma_heap_limit_headroom();
            }
            let block = self.blocks[i];
            total_usage = total_usage + block.current_offset;
            total_size = total_size + block.size;
            self.blocks.set(i, ResourceBlock { current_offset: 0, ..block });
            i += 1;
        }
        assert(old(self).blocks@.take(i as int) =~= old(self).blocks@);
        assert(self.blocks@ =~= old(self).blocks@.map_values(|b: ResourceBlock| emptied(b)));
        let blocks_created = self.blocks_created;
        match fresh {
            Some((buffer, device_memory)) => {
                proof {
                    lemma_align_within_heap_limit(
                        if total_size > self.min_resource_block_size { total_size as int } else { self.min_resource_block_size as int },
                    );
                    lemma_heap_limit_headroom();
                }
                let size = self.resource_block_size(total_size);
                self.replace_blocks(buffer, device_memory, size);
                proof {
                    lemma_no_active(self.blocks@);
                    assert forall|request: usize, alignment: usize|
                        0 < alignment && request <= sum_sizes(old(self).blocks@)
                        implies #[trigger] block_fits(self.blocks@[0], request, alignment) by {
                        lemma_align_zero(alignment as int);
                    }
                }
            },
            None => {
                proof {
                    lemma_no_active(self.blocks@);
                }
            },
        }
        self.blocks_created = 0;
        ResetSummary { total_usage, total_size, blocks_created }
    }

    /// Replace all blocks by a single empty block (after a compacting reset
    /// destroyed the old ones and created this one).
    fn replace_blocks(&mut self, buffer: u64, device_memory: u64, size: usize)
        requires
            old(self).wf(),
            size <= heap_limit(),
        ensures
            final(self).wf(),
            final(self).blocks@ == seq![ResourceBlock { buffer, device_memory, size, current_offset: 0 }],
            final(self).blocks_created == old(self).blocks_created,
            final(self).min_resource_block_size == old(self).min_resource_block_size,
            final(self).issued@ == Seq::<(int, int, int)>::empty(),
    {
        self.issued = Ghost(Seq::empty());
        self.blocks.clear();
        self.blocks.push(ResourceBlock { buffer, device_memory, size, current_offset: 0 });
        assert(self.blocks@ =~= seq![ResourceBlock { buffer, device_memory, size, current_offset: 0 }]);
        assert(self.blocks@.drop_last() =~= Seq::<ResourceBlock>::empty());
        assert(sum_sizes(self.blocks@) == sum_sizes(Seq::<ResourceBlock>::empty()) + size);
    }
}

/// No block has room for `size` bytes at `alignment`.
pub open spec fn no_block_fits(blocks: Seq<ResourceBlock>, size: usize, alignment: usize) -> bool {
    forall|j: int| 0 <= j < blocks.len() ==> !block_fits(blocks[j], size, alignment)
}

/// A newly created, empty block for a request of `size` bytes.
pub open spec fn fresh_block(buffer: u64, device_memory: u64, min_size: usize, size: usize) -> ResourceBlock {
    ResourceBlock {
        buffer,
        device_memory,
        size: spec_resource_block_size(min_size as int, size as int) as usize,
        current_offset: 0,
    }
}

/// The alignment used when none is given.
pub open spec fn effective_alignment(alignment: Option<usize>) -> usize {
    match alignment {
        Some(a) => a,
        None => DEFAULT_ALIGNMENT,
    }
}

/// The allocation that a block with room hands out.
pub open spec fn carve(b: ResourceBlock, size: usize, alignment: usize) -> HostLinearAllocation {
    HostLinearAllocation {
        buffer: b.buffer,
        device_memory: b.device_memory,
        offset: spec_align_forward(b.current_offset as int, alignment as int) as usize,
        size,
    }
}

/// The block after it handed out `size` bytes at `alignment`.
pub open spec fn advanced(b: ResourceBlock, size: usize, alignment: usize) -> ResourceBlock {
    ResourceBlock {
        current_offset: (spec_align_forward(b.current_offset as int, alignment as int) + size) as usize,
        ..b
    }
}

/// Zero is aligned to every alignment.
proof fn lemma_align_zero(alignment: int)
    requires
        alignment > 0,
    ensures
        spec_align_forward(0, alignment) == 0,
{
    assert(((0 + alignment - 1) / alignment) * alignment == 0) by (nonlinear_arith)
        requires
            alignment > 0,
    ;
}

/// Replacing one block changes the total size by the difference in size.
pub proof fn lemma_sum_sizes_update(blocks: Seq<ResourceBlock>, i: int, b: ResourceBlock)
    requires
        0 <= i < blocks.len(),
    ensures
        sum_sizes(blocks.update(i, b)) == sum_sizes(blocks) - blocks[i].size + b.size,
    decreases blocks.len(),
{
    if i == blocks.len() - 1 {
        assert(blocks.update(i, b).drop_last() =~= blocks.drop_last());
    } else {
        assert(blocks.update(i, b).drop_last() =~= blocks.drop_last().update(i, b));
        lemma_sum_sizes_update(blocks.drop_last(), i, b);
    }
}

/// Blocks whose offsets are all zero are all inactive.
proof fn lemma_no_active(blocks: Seq<ResourceBlock>)
    requires
        forall|i: int| 0 <= i < blocks.len() ==> blocks[i].current_offset == 0,
    ensures
        spec_active_count(blocks) == 0,
    decreases blocks.len(),
{
    if blocks.len() > 0 {
        lemma_no_active(blocks.drop_last());
    }
}

/// A block made for a request has room for it, whatever the alignment: it
/// starts empty and is at least as large as the request.
pub proof fn lemma_new_block_fits(min_size: usize, size: usize, alignment: usize, buffer: u64, device_memory: u64)
    requires
        0 < alignment <= MAX_ALIGNMENT,
        spec_resource_block_size(min_size as int, size as int) <= usize::MAX,
    ensures
        block_fits(
            ResourceBlock {
                buffer,
                device_memory,
                size: spec_resource_block_size(min_size as int, size as int) as usize,
                current_offset: 0,
            },
            size,
            alignment,
        ),
        spec_align_forward(0, alignment as int) == 0,
{
    let wanted: int = if size > min_size { size as int } else { min_size as int };
    lemma_align_forward(wanted, MAX_ALIGNMENT as int);
    lemma_align_zero(alignment as int);
}

/// Allocations made from a block between two resets do not overlap: an
/// allocation starts at or after the block's used offset and ends where
/// the block's new used offset is, within the block, so the next one from
/// the block starts after it.
pub proof fn lemma_allocations_do_not_overlap(b: ResourceBlock, size1: usize, alignment1: usize, size2: usize, alignment2: usize)
    requires
        0 < alignment1,
        0 < alignment2,
        block_fits(b, size1, alignment1),
        block_fits(advanced(b, size1, alignment1), size2, alignment2),
    ensures
        b.current_offset <= carve(b, size1, alignment1).offset,
        carve(b, size1, alignment1).offset + size1 == advanced(b, size1, alignment1).current_offset,
        advanced(b, size1, alignment1).current_offset <= b.size,
        carve(b, size1, alignment1).offset + size1
            <= carve(advanced(b, size1, alignment1), size2, alignment2).offset,
        carve(advanced(b, size1, alignment1), size2, alignment2).offset + size2 <= b.size,
{
    let first = spec_align_forward(b.current_offset as int, alignment1 as int);
    lemma_align_forward(b.current_offset as int, alignment1 as int);
    let next = advanced(b, size1, alignment1);
    assert(next.current_offset == first + size1);
    lemma_align_forward(next.current_offset as int, alignment2 as int);
}

/// No two allocations handed out since the last reset overlap: each lies
/// within the used part of its block, and of two from the same block the
/// earlier ends at or before the start of the later. (`new` and `reset`
/// start the record empty, `allocate` adds each allocation it hands out,
/// and adding a block keeps it.)
pub proof fn lemma_allocations_since_reset_apart(a: HostLinearAllocator, k: int, l: int)
    requires
        a.wf(),
        0 <= k < l < a.issued@.len(),
        a.issued@[k].0 == a.issued@[l].0,
    ensures
        a.issued@[k].1 + a.issued@[k].2 <= a.issued@[l].1,
        a.issued@[l].1 + a.issued@[l].2 <= a.blocks@[a.issued@[l].0].size,
{
    let i = a.issued@[l].0;
    assert(a.blocks@[i].current_offset <= a.blocks@[i].size);
}

} // verus!
