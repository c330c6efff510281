//! Everything a graphics pipeline is made of that can be decided before the
//! driver is asked: static sampler bindings, the ordering and slotting of
//! descriptor set layouts and their pool sizes, vertex input, color blend
//! state, color and depth attachments and the key under which a compatible
//! render pass is cached.

use vstd::prelude::*;
use vstd::multiset::Multiset;
use crate::vulkan;
use crate::types::DescriptorSetLayout;
use crate::types::DescriptorSetLayoutBinding;
use crate::types::DescriptorPoolSize;
use crate::types::LayoutView;
use crate::types::layouts_view;
use crate::descriptors::SMP_OFFSET;
use crate::descriptors::tally_descriptor_pool_sizes;
use crate::descriptors::is_first_pool_size;
use crate::descriptors::no_pool_size;
use crate::states::RenderShaderType;
use crate::format::RenderFormat;
use crate::format::RenderBlendMode;
use crate::format::RenderBlendOp;
use crate::format::spec_convert_format;
use crate::format::convert_format;
use crate::format::spec_get_blend_factor;
use crate::format::get_blend_factor;
use crate::format::spec_get_blend_op;
use crate::format::get_blend_op;
use crate::hashing::u32_le_bytes;
use crate::hashing::push_u32_le;
use crate::hashing::xxhash32;
use crate::hashing::xxhash32_digest;
use crate::assoc::AssocList;
use crate::types::RenderShaderVk;
use crate::types::shader_layouts_view;
use crate::descriptors::merge_sets;
use crate::descriptors::merge_set;
use crate::descriptors::with_set;
use crate::descriptors::set_slot;
use crate::descriptors::is_first_set;
use crate::descriptors::merge_descriptor_set_layouts;
use crate::descriptors::SET_OFFSET;

verus! {

// ---------------------------------------------------------------------
// Static samplers

/// The layout binding of the static sampler at `index`: a single sampler
/// descriptor for all graphics stages, after the sampler binding offset,
/// with the sampler baked in.
pub open spec fn spec_static_sampler_binding(index: int, sampler: u64) -> DescriptorSetLayoutBinding {
    DescriptorSetLayoutBinding {
        binding: (SMP_OFFSET + index) as u32,
        descriptor_type: vulkan::DESCRIPTOR_TYPE_SAMPLER,
        descriptor_count: 1,
        stage_flags: vulkan::SHADER_STAGE_ALL_GRAPHICS,
        immutable_sampler: Some(sampler),
    }
}

/// Layout bindings for the static samplers, in order.
pub fn static_sampler_bindings(samplers: &Vec<u64>) -> (r: Vec<DescriptorSetLayoutBinding>)
    requires
        samplers@.len() + SMP_OFFSET <= u32::MAX,
    ensures
        r@ == Seq::new(samplers@.len(), |i: int| spec_static_sampler_binding(i, samplers@[i])),
{
    let mut r: Vec<DescriptorSetLayoutBinding> = Vec::new();
    let mut i: usize = 0;
    while i < samplers.len()
        invariant
            i <= samplers@.len(),
            samplers@.len() + SMP_OFFSET <= u32::MAX,
            r@ == Seq::new(i as nat, |k: int| spec_static_sampler_binding(k, samplers@[k])),
        decreases samplers@.len() - i,
    {
        r.push(DescriptorSetLayoutBinding {
            binding: SMP_OFFSET + i as u32,
            descriptor_type: vulkan::DESCRIPTOR_TYPE_SAMPLER,
            descriptor_count: 1,
            stage_flags: vulkan::SHADER_STAGE_ALL_GRAPHICS,
            immutable_sampler: Some(samplers[i]),
        });
        i += 1;
        assert(r@ =~= Seq::new(i as nat, |k: int| spec_static_sampler_binding(k, samplers@[k])));
    }
    r
}

/// Stages that take part in a graphics pipeline.
pub open spec fn spec_is_graphics_stage(stage: RenderShaderType) -> bool {
    stage != RenderShaderType::Compute
}

/// Whether a shader stage belongs in a graphics pipeline (vertex, hull,
/// domain, geometry and pixel do; compute does not).
pub fn is_graphics_stage(stage: RenderShaderType) -> (r: bool)
    ensures
        r == spec_is_graphics_stage(stage),
        r == (stage == RenderShaderType::Vertex || stage == RenderShaderType::Geometry || stage == RenderShaderType::Hull
            || stage == RenderShaderType::Domain || stage == RenderShaderType::Pixel),
        stage == RenderShaderType::Compute ==> !r,
{
    match stage {
        RenderShaderType::Vertex
        | RenderShaderType::Geometry
        | RenderShaderType::Hull
        | RenderShaderType::Domain
        | RenderShaderType::Pixel => true,
        _ => false,
    }
}

// ---------------------------------------------------------------------
// Ordering of descriptor set layouts

/// Layouts in non-decreasing order of their set index.
pub open spec fn sorted_by_set(s: Seq<LayoutView>) -> bool {
    forall|a: int, b: int| 0 <= a < b < s.len() ==> s[a].set_index <= s[b].set_index
}

/// Layouts of set `v`.
pub open spec fn of_set(v: u32) -> spec_fn(LayoutView) -> bool {
    |l: LayoutView| l.set_index == v
}

/// Moving a layout ahead of layouts of other sets keeps, for every set, the
/// layouts of that set in the same order.
proof fn lemma_move_keeps_set_order(a: Seq<LayoutView>, b: Seq<LayoutView>, x: LayoutView, c: Seq<LayoutView>, v: u32)
    requires
        forall|k: int| 0 <= k < b.len() ==> b[k].set_index != x.set_index,
    ensures
        (a + b + seq![x] + c).filter(of_set(v)) == (a + seq![x] + b + c).filter(of_set(v)),
{
    broadcast use vstd::seq_lib::group_filter_ensures;
    vstd::seq::Seq::filter_distributes_over_add(a + b, seq![x], of_set(v));
    vstd::seq::Seq::filter_distributes_over_add(a, b, of_set(v));
    vstd::seq::Seq::filter_distributes_over_add(a + b + seq![x], c, of_set(v));
    vstd::seq::Seq::filter_distributes_over_add(a, seq![x], of_set(v));
    vstd::seq::Seq::filter_distributes_over_add(a + seq![x], b, of_set(v));
    vstd::seq::Seq::filter_distributes_over_add(a + seq![x] + b, c, of_set(v));
    if x.set_index == v {
        lemma_filter_none(b, v);
    } else {
        lemma_filter_none(seq![x], v);
    }
}

/// Layouts none of which is of set `v` have no layouts of that set.
proof fn lemma_filter_none(b: Seq<LayoutView>, v: u32)
    requires
        forall|k: int| 0 <= k < b.len() ==> b[k].set_index != v,
    ensures
        b.filter(of_set(v)) == Seq::<LayoutView>::empty(),
    decreases b.len(),
{
    reveal(Seq::filter);
    if b.len() > 0 {
        lemma_filter_none(b.drop_last(), v);
    }
}

/// Sort layouts by set index, keeping the order of layouts with the same
/// index. The layouts themselves are kept as they are.
pub fn sort_layouts_by_set(layouts: &mut Vec<DescriptorSetLayout>)
    ensures
        layouts_view(final(layouts)@).to_multiset() == layouts_view(old(layouts)@).to_multiset(),
        layouts_view(final(layouts)@).len() == layouts_view(old(layouts)@).len(),
        sorted_by_set(layouts_view(final(layouts)@)),
        forall|v: u32| #[trigger] layouts_view(final(layouts)@).filter(of_set(v))
            == layouts_view(old(layouts)@).filter(of_set(v)),
{
    let n = layouts.len();
    if n == 0 {
        return;
    }
    let mut i: usize = 1;
    while i < n
        invariant
            1 <= i <= n,
            n == layouts@.len(),
            layouts_view(layouts@).to_multiset() == layouts_view(old(layouts)@).to_multiset(),
            sorted_by_set(layouts_view(layouts@).take(i as int)),
            forall|v: u32| #[trigger] layouts_view(layouts@).filter(of_set(v))
                == layouts_view(old(layouts)@).filter(of_set(v)),
        decreases n - i,
    {
        let ghost before = layouts_view(layouts@);
        let elem = layouts.remove(i);
        let key = elem.set_index;
        let ghost removed = layouts_view(layouts@);
        proof {
            assert(removed =~= before.remove(i as int));
            vstd::seq_lib::to_multiset_remove(before, i as int);
        }
        let mut j: usize = 0;
        while j < i && layouts[j].set_index <= key
            invariant
                j <= i,
                i < n,
                layouts@.len() == n - 1,
                layouts_view(layouts@) == removed,
                forall|a: int| 0 <= a < j ==> removed[a].set_index <= key,
            decreases i - j,
        {
            j += 1;
        }
        proof {
            // Every layout in the sorted prefix from `j` on comes after `key`.
            assert forall|a: int| j <= a < i implies removed[a].set_index > key by {
                assert(removed[j as int].set_index > key);
                assert(before[j as int] == removed[j as int]);
                assert(before[a] == removed[a]);
                assert(sorted_by_set(before.take(i as int)));
                assert(before.take(i as int)[j as int] == before[j as int]);
                assert(before.take(i as int)[a] == before[a]);
            }
        }
        layouts.insert(j, elem);
        proof {
            let after = layouts_view(layouts@);
            assert(after =~= removed.insert(j as int, elem.view()));
            vstd::seq_lib::to_multiset_insert(removed, j as int, elem.view());
            assert(before[i as int] == elem.view());
            assert(before.to_multiset().contains(before[i as int])) by {
                vstd::seq_lib::to_multiset_contains(before, before[i as int]);
            }
            assert(before.to_multiset().remove(elem.view()).insert(elem.view()) =~= before.to_multiset()) by {
                broadcast use vstd::multiset::group_multiset_axioms;
            }
            assert forall|v: u32| #[trigger] after.filter(of_set(v)) == layouts_view(old(layouts)@).filter(of_set(v)) by {
                let pa = before.take(j as int);
                let pb = before.subrange(j as int, i as int);
                let pc = before.skip(i + 1);
                assert(before =~= pa + pb + seq![elem.view()] + pc);
                assert(after =~= pa + seq![elem.view()] + pb + pc);
                assert forall|k: int| 0 <= k < pb.len() implies pb[k].set_index != elem.view().set_index by {
                    assert(pb[k] == removed[j + k]);
                    assert(removed[j + k].set_index > key);
                }
                lemma_move_keeps_set_order(pa, pb, elem.view(), pc, v);
                assert(before.filter(of_set(v)) == layouts_view(old(layouts)@).filter(of_set(v)));
            }
            assert forall|a: int, b: int| 0 <= a < b < i + 1 implies #[trigger] after.take(i + 1)[a].set_index <= #[trigger] after.take(i + 1)[b].set_index by {
                assert(after.take(i + 1)[a] == after[a]);
                assert(after.take(i + 1)[b] == after[b]);
                let pa = if a < j { a } else if a == j { -1 } else { a - 1 };
                let pb = if b < j { b } else if b == j { -1 } else { b - 1 };
                if pa >= 0 {
                    assert(after[a] == removed[pa]);
                    assert(removed[pa] == before[pa]);
                    assert(before.take(i as int)[pa] == before[pa]);
                }
                if pb >= 0 {
                    assert(after[b] == removed[pb]);
                    assert(removed[pb] == before[pb]);
                    assert(before.take(i as int)[pb] == before[pb]);
                }
            }
        }
        i += 1;
    }
    assert(layouts_view(layouts@).take(n as int) =~= layouts_view(layouts@));
}

/// Append `extra` to `bindings`.
pub fn append_bindings(bindings: &mut Vec<DescriptorSetLayoutBinding>, extra: &Vec<DescriptorSetLayoutBinding>)
    ensures
        final(bindings)@ == old(bindings)@ + extra@,
{
    let mut i: usize = 0;
    while i < extra.len()
        invariant
            i <= extra@.len(),
            bindings@ == old(bindings)@ + extra@.take(i as int),
        decreases extra@.len() - i,
    {
        bindings.push(extra[i]);
        i += 1;
        assert(bindings@ =~= old(bindings)@ + extra@.take(i as int));
    }
    assert(extra@.take(i as int) =~= extra@);
}

/// A layout with the static sampler bindings added after its own.
pub open spec fn with_samplers(l: LayoutView, samplers: Seq<DescriptorSetLayoutBinding>) -> LayoutView {
    LayoutView { set_index: l.set_index, bindings: l.bindings + samplers, layout: l.layout }
}

/// Add the static sampler bindings to every layout.
pub fn append_sampler_bindings(layouts: &mut Vec<DescriptorSetLayout>, sampler_bindings: &Vec<DescriptorSetLayoutBinding>)
    ensures
        layouts_view(final(layouts)@) == layouts_view(old(layouts)@).map_values(
            |l: LayoutView| with_samplers(l, sampler_bindings@),
        ),
{
    let mut pending: Vec<DescriptorSetLayout> = Vec::new();
    std::mem::swap(layouts, &mut pending);
    let ghost start = layouts_view(pending@);
    assert(start == layouts_view(old(layouts)@));
    let mut done: Vec<DescriptorSetLayout> = Vec::new();
    while pending.len() > 0
        invariant
            layouts_view(done@).len() + layouts_view(pending@).len() == start.len(),
            layouts_view(done@) == start.take(done@.len() as int).map_values(|l: LayoutView| with_samplers(l, sampler_bindings@)),
            layouts_view(pending@) == start.skip(done@.len() as int),
        decreases pending@.len(),
    {
        let ghost k = done@.len() as int;
        let ghost pv = pending@;
        let mut l = pending.remove(0);
        proof {
            assert(l == pv[0]);
            assert(layouts_view(pv)[0] == pv[0].view());
            assert(layouts_view(pv)[0] == start.skip(k)[0]);
            assert(l.view() == start[k]);
            assert(pending@ == pv.remove(0));
            assert(layouts_view(pending@) =~= layouts_view(pv).skip(1));
            assert(layouts_view(pending@) =~= start.skip(k + 1));
        }
        let ghost lv = l.view();
        let ghost old_done = done@;
        append_bindings(&mut l.bindings, sampler_bindings);
        proof {
            assert(l.view().bindings == lv.bindings + sampler_bindings@);
            assert(l.view() == with_samplers(start[k], sampler_bindings@));
        }
        done.push(l);
        proof {
            let want = start.take(k + 1).map_values(|v: LayoutView| with_samplers(v, sampler_bindings@));
            assert forall|a: int| 0 <= a < k + 1 implies layouts_view(done@)[a] == want[a] by {
                if a < k {
                    assert(done@[a] == old_done[a]);
                    assert(layouts_view(old_done)[a] == start.take(k).map_values(|v: LayoutView| with_samplers(v, sampler_bindings@))[a]);
                } else {
                    assert(done@[a] == l);
                }
            }
            assert(layouts_view(done@) =~= want);
        }
    }
    assert(start.take(start.len() as int) =~= start);
    *layouts = done;
}

// ---------------------------------------------------------------------
// Set layout slots and pool sizes

/// The layout handle filed for `set`: the last layout with that set
/// index, or 0 when there is none.
pub open spec fn layout_for_set(layouts: Seq<LayoutView>, set: int) -> u64
    decreases layouts.len(),
{
    if layouts.len() == 0 {
        0
    } else if layouts.last().set_index == set {
        layouts.last().layout
    } else {
        layout_for_set(layouts.drop_last(), set)
    }
}

/// No two layouts share a set index.
pub open spec fn set_indices_unique(layouts: Seq<LayoutView>) -> bool {
    forall|a: int, b: int| 0 <= a < b < layouts.len() ==> layouts[a].set_index != layouts[b].set_index
}

/// The descriptor set layout used for set slot `k` of a pipeline with
/// `cbuffer.len()` argument slots: the argument slots take the merged
/// layout of their set or the empty layout, the slots after them take the
/// dynamic constant buffer layouts.
pub open spec fn spec_set_layout_slot(layouts: Seq<LayoutView>, cbuffer: Seq<u64>, empty: u64, k: int) -> u64 {
    if k >= cbuffer.len() {
        cbuffer[k - cbuffer.len()]
    } else if layout_for_set(layouts, k) != 0 {
        layout_for_set(layouts, k)
    } else {
        empty
    }
}

/// The descriptor set layouts of a pipeline layout, one per slot: twice as
/// many slots as there are constant buffer layouts.
pub fn pipeline_set_layouts(layouts: &Vec<DescriptorSetLayout>, cbuffer_layouts: &Vec<u64>, empty_layout: u64) -> (r: Vec<u64>)
    requires
        2 * cbuffer_layouts@.len() <= usize::MAX,
        set_indices_unique(layouts_view(layouts@)),
        forall|i: int| 0 <= i < layouts@.len() ==> (#[trigger] layouts@[i]).set_index < 2 * cbuffer_layouts@.len(),
        forall|i: int| 0 <= i < layouts@.len() ==> (#[trigger] layouts@[i]).layout != 0,
    ensures
        r@.len() == 2 * cbuffer_layouts@.len(),
        forall|k: int| 0 <= k < r@.len() ==> r@[k] == spec_set_layout_slot(layouts_view(layouts@), cbuffer_layouts@, empty_layout, k),
{
    let p = cbuffer_layouts.len();
    let total = p + p;
    let mut slots: Vec<u64> = Vec::new();
    let mut k: usize = 0;
    while k < total
        invariant
            k <= total,
            total == 2 * p,
            slots@.len() == k,
            forall|a: int| 0 <= a < k ==> slots@[a] == 0,
        decreases total - k,
    {
        slots.push(0);
        k += 1;
    }
    let mut i: usize = 0;
    while i < layouts.len()
        invariant
            i <= layouts@.len(),
            total == 2 * p,
            p == cbuffer_layouts@.len(),
            slots@.len() == total,
            forall|a: int| 0 <= a < layouts@.len() ==> (#[trigger] layouts@[a]).set_index < total,
            forall|a: int| 0 <= a < total ==> slots@[a] == layout_for_set(layouts_view(layouts@).take(i as int), a),
        decreases layouts@.len() - i,
    {
        let set = layouts[i].set_index as usize;
        slots.set(set, layouts[i].layout);
        proof {
            let v = layouts_view(layouts@);
            assert(v.take(i + 1).drop_last() =~= v.take(i as int));
            assert(v.take(i + 1).last() == v[i as int]);
        }
        i += 1;
    }
    assert(layouts_view(layouts@).take(i as int) =~= layouts_view(layouts@));
    let mut r: Vec<u64> = Vec::new();
    let mut k: usize = 0;
    while k < total
        invariant
            k <= total,
            total == 2 * p,
            p == cbuffer_layouts@.len(),
            slots@.len() == total,
            forall|a: int| 0 <= a < total ==> slots@[a] == layout_for_set(layouts_view(layouts@), a),
            r@.len() == k,
            forall|a: int| 0 <= a < k ==> r@[a] == spec_set_layout_slot(layouts_view(layouts@), cbuffer_layouts@, empty_layout, a),
        decreases total - k,
    {
        if k >= p {
            r.push(cbuffer_layouts[k - p]);
        } else if slots[k] == 0 {
            r.push(empty_layout);
        } else {
            r.push(slots[k]);
        }
        k += 1;
    }
    r
}

/// Pool sizes after counting one more descriptor of type `ty`.
pub open spec fn spec_tally(pool: Seq<DescriptorPoolSize>, ty: i32) -> Seq<DescriptorPoolSize> {
    if exists|i: int| is_first_pool_size(pool, ty, i) {
        let i = choose|i: int| is_first_pool_size(pool, ty, i);
        pool.update(i, DescriptorPoolSize { ty, descriptor_count: (pool[i].descriptor_count + 1) as u32 })
    } else {
        pool.push(DescriptorPoolSize { ty, descriptor_count: 1 })
    }
}

/// Pool sizes counting descriptors of the given types, in order.
pub open spec fn spec_tally_all(types: Seq<i32>) -> Seq<DescriptorPoolSize>
    decreases types.len(),
{
    if types.len() == 0 {
        Seq::empty()
    } else {
        spec_tally(spec_tally_all(types.drop_last()), types.last())
    }
}

/// Descriptor types of a layout's bindings.
pub open spec fn binding_types(bindings: Seq<DescriptorSetLayoutBinding>) -> Seq<i32> {
    bindings.map_values(|b: DescriptorSetLayoutBinding| b.descriptor_type)
}

/// Descriptor types of every binding of every layout, layout by layout.
pub open spec fn layout_binding_types(layouts: Seq<LayoutView>) -> Seq<i32>
    decreases layouts.len(),
{
    if layouts.len() == 0 {
        Seq::empty()
    } else {
        layout_binding_types(layouts.drop_last()) + binding_types(layouts.last().bindings)
    }
}

/// Every count is at most `n`.
pub open spec fn counts_at_most(pool: Seq<DescriptorPoolSize>, n: int) -> bool {
    forall|i: int| 0 <= i < pool.len() ==> pool[i].descriptor_count <= n
}

/// Count one descriptor of type `ty` into `pool`, as `spec_tally` says.
fn tally_one(pool: &mut Vec<DescriptorPoolSize>, ty: i32, ghost_n: Ghost<int>)
    requires
        counts_at_most(old(pool)@, ghost_n@),
        0 <= ghost_n@ < u32::MAX,
    ensures
        final(pool)@ == spec_tally(old(pool)@, ty),
        counts_at_most(final(pool)@, ghost_n@ + 1),
{
    proof {
        if exists|i: int| is_first_pool_size(pool@, ty, i) {
            let i = choose|i: int| is_first_pool_size(pool@, ty, i);
            assert(pool@[i].descriptor_count < u32::MAX);
        }
        assert forall|i: int| is_first_pool_size(pool@, ty, i) implies pool@[i].descriptor_count < u32::MAX by {}
    }
    tally_descriptor_pool_sizes(pool, ty);
    proof {
        if !exists|i: int| is_first_pool_size(old(pool)@, ty, i) {
            assert(no_pool_size(old(pool)@, ty)) by {
                assert forall|j: int| 0 <= j < old(pool)@.len() implies old(pool)@[j].ty != ty by {
                    if old(pool)@[j].ty == ty {
                        let first = choose_first(old(pool)@, ty, j);
                        assert(is_first_pool_size(old(pool)@, ty, first));
                    }
                }
            }
            assert(pool@ == old(pool)@.push(DescriptorPoolSize { ty, descriptor_count: 1 }));
            assert forall|i: int| 0 <= i < pool@.len() implies pool@[i].descriptor_count <= ghost_n@ + 1 by {
                if i < old(pool)@.len() {
                    assert(pool@[i] == old(pool)@[i]);
                }
            }
        } else {
            let f = choose|i: int| is_first_pool_size(old(pool)@, ty, i);
            assert(is_first_pool_size(old(pool)@, ty, f));
            assert forall|i: int| 0 <= i < pool@.len() implies pool@[i].descriptor_count <= ghost_n@ + 1 by {
                assert(old(pool)@[i].descriptor_count <= ghost_n@);
            }
        }
    }
}

/// The first entry for `ty` at or before `j`, when entry `j` has type `ty`.
proof fn choose_first(pool: Seq<DescriptorPoolSize>, ty: i32, j: int) -> (i: int)
    requires
        0 <= j < pool.len(),
        pool[j].ty == ty,
    ensures
        is_first_pool_size(pool, ty, i),
    decreases j,
{
    if exists|k: int| 0 <= k < j && pool[k].ty == ty {
        let k = choose|k: int| 0 <= k < j && pool[k].ty == ty;
        choose_first(pool, ty, k)
    } else {
        j
    }
}

/// Pool sizes for all bindings of all layouts, counted in order.
pub fn layout_pool_sizes(layouts: &Vec<DescriptorSetLayout>) -> (r: Vec<DescriptorPoolSize>)
    requires
        layout_binding_types(layouts_view(layouts@)).len() < u32::MAX,
    ensures
        r@ == spec_tally_all(layout_binding_types(layouts_view(layouts@))),
{
    let mut pool: Vec<DescriptorPoolSize> = Vec::new();
    let ghost all = layout_binding_types(layouts_view(layouts@));
    let mut i: usize = 0;
    proof {
        lemma_layout_binding_types_prefix(layouts_view(layouts@), 0);
    }
    while i < layouts.len()
        invariant
            i <= layouts@.len(),
            all == layout_binding_types(layouts_view(layouts@)),
            all.len() < u32::MAX,
            layout_binding_types(layouts_view(layouts@).take(i as int)).len() <= all.len(),
            pool@ == spec_tally_all(layout_binding_types(layouts_view(layouts@).take(i as int))),
            counts_at_most(pool@, layout_binding_types(layouts_view(layouts@).take(i as int)).len() as int),
        decreases layouts@.len() - i,
    {
        let ghost done = layout_binding_types(layouts_view(layouts@).take(i as int));
        let ghost bs = layouts@[i as int].bindings@;
        proof {
            let v = layouts_view(layouts@);
            assert(v.take(i + 1).drop_last() =~= v.take(i as int));
            assert(v.take(i + 1).last() == v[i as int]);
            lemma_layout_binding_types_prefix(v, i + 1);
        }
        let mut j: usize = 0;
        while j < layouts[i].bindings.len()
            invariant
                i < layouts@.len(),
                j <= bs.len(),
                bs == layouts@[i as int].bindings@,
                done.len() + bs.len() <= all.len(),
                all.len() < u32::MAX,
                pool@ == spec_tally_all(done + binding_types(bs.take(j as int))),
                counts_at_most(pool@, done.len() + j),
            decreases bs.len() - j,
        {
            let ty = layouts[i].bindings[j].descriptor_type;
            proof {
                assert((done + binding_types(bs.take(j + 1))).drop_last() =~= done + binding_types(bs.take(j as int)));
                assert((done + binding_types(bs.take(j + 1))).last() == ty);
            }
            tally_one(&mut pool, ty, Ghost((done.len() + j) as int));
            j += 1;
        }
        proof {
            assert(bs.take(j as int) =~= bs);
            assert(layout_binding_types(layouts_view(layouts@).take(i + 1)) =~= done + binding_types(bs));
        }
        i += 1;
    }
    assert(layouts_view(layouts@).take(i as int) =~= layouts_view(layouts@));
    pool
}

/// The types of a prefix of the layouts are no more than those of all.
proof fn lemma_layout_binding_types_prefix(layouts: Seq<LayoutView>, i: int)
    requires
        0 <= i <= layouts.len(),
    ensures
        layout_binding_types(layouts.take(i)).len() <= layout_binding_types(layouts).len(),
    decreases layouts.len(),
{
    if i == layouts.len() {
        assert(layouts.take(i) =~= layouts);
    } else {
        assert(layouts.drop_last().take(i) =~= layouts.take(i));
        lemma_layout_binding_types_prefix(layouts.drop_last(), i);
    }
}

// ---------------------------------------------------------------------
// Vertex input

/// A vertex buffer binding of the pipeline (`VkVertexInputBindingDescription`).
#[derive(Clone, Copy, Debug, PartialEq, Eq, Structural)]
pub struct VertexInputBinding {
    pub binding: u32,
    pub stride: u32,
    pub input_rate: i32,
}

/// One element of the vertex layout: the stream it is read from, its
/// offset in the stream and its format.
#[derive(Clone, Copy, Debug, PartialEq, Eq, Structural)]
pub struct RenderVertexElement {
    pub stream: u32,
    pub offset: u32,
    pub format: RenderFormat,
}

/// A vertex attribute of the pipeline (`VkVertexInputAttributeDescription`).
#[derive(Clone, Copy, Debug, PartialEq, Eq, Structural)]
pub struct VertexInputAttribute {
    pub location: u32,
    pub binding: u32,
    pub format: i32,
    pub offset: u32,
}

/// One binding per stream with a non-zero stride, numbered by stream, read
/// per vertex.
pub open spec fn spec_vertex_bindings(strides: Seq<u32>) -> Seq<VertexInputBinding>
    decreases strides.len(),
{
    if strides.len() == 0 {
        Seq::empty()
    } else if strides.last() > 0 {
        spec_vertex_bindings(strides.drop_last()).push(VertexInputBinding {
            binding: (strides.len() - 1) as u32,
            stride: strides.last(),
            input_rate: vulkan::VERTEX_INPUT_RATE_VERTEX,
        })
    } else {
        spec_vertex_bindings(strides.drop_last())
    }
}

/// Vertex buffer bindings for the given per-stream strides.
pub fn vertex_bindings(strides: &Vec<u32>) -> (r: Vec<VertexInputBinding>)
    requires
        strides@.len() <= u32::MAX,
    ensures
        r@ == spec_vertex_bindings(strides@),
{
    let mut r: Vec<VertexInputBinding> = Vec::new();
    let mut i: usize = 0;
    while i < strides.len()
        invariant
            i <= strides@.len(),
            strides@.len() <= u32::MAX,
            r@ == spec_vertex_bindings(strides@.take(i as int)),
        decreases strides@.len() - i,
    {
        proof {
            assert(strides@.take(i + 1).drop_last() =~= strides@.take(i as int));
        }
        if strides[i] > 0 {
            r.push(VertexInputBinding { binding: i as u32, stride: strides[i], input_rate: vulkan::VERTEX_INPUT_RATE_VERTEX });
        }
        i += 1;
    }
    assert(strides@.take(i as int) =~= strides@);
    r
}

/// The attribute for element `index`: its location is its index.
pub open spec fn spec_vertex_attribute(index: int, element: RenderVertexElement) -> VertexInputAttribute {
    VertexInputAttribute {
        location: index as u32,
        binding: element.stream,
        format: spec_convert_format(element.format),
        offset: element.offset,
    }
}

/// Vertex attributes for the first `element_count` elements.
pub fn vertex_attributes(elements: &Vec<RenderVertexElement>, element_count: u32) -> (r: Vec<VertexInputAttribute>)
    requires
        element_count <= elements@.len(),
    ensures
        r@ == Seq::new(element_count as nat, |i: int| spec_vertex_attribute(i, elements@[i])),
{
    let mut r: Vec<VertexInputAttribute> = Vec::new();
    let mut i: u32 = 0;
    while i < element_count
        invariant
            i <= element_count,
            element_count <= elements@.len(),
            r@ == Seq::new(i as nat, |k: int| spec_vertex_attribute(k, elements@[k])),
        decreases element_count - i,
    {
        let element = elements[i as usize];
        r.push(VertexInputAttribute {
            location: i,
            binding: element.stream,
            format: convert_format(element.format, false),
            offset: element.offset,
        });
        i += 1;
        assert(r@ =~= Seq::new(i as nat, |k: int| spec_vertex_attribute(k, elements@[k])));
    }
    r
}

// ---------------------------------------------------------------------
// Color blending

/// Write mask bits of a render target.
pub const WRITE_MASK_RED: u8 = 0x1;
pub const WRITE_MASK_GREEN: u8 = 0x2;
pub const WRITE_MASK_BLUE: u8 = 0x4;
pub const WRITE_MASK_ALPHA: u8 = 0x8;

/// Blend state of one render target.
#[derive(Clone, Copy, Debug, PartialEq, Eq, Structural)]
pub struct RenderTargetBlendState {
    pub blend_enable: bool,
    pub source_color: RenderBlendMode,
    pub dest_color: RenderBlendMode,
    pub op_color: RenderBlendOp,
    pub source_alpha: RenderBlendMode,
    pub dest_alpha: RenderBlendMode,
    pub op_alpha: RenderBlendOp,
}

/// Blend state of one color attachment (`VkPipelineColorBlendAttachmentState`).
#[derive(Clone, Copy, Debug, PartialEq, Eq, Structural)]
pub struct ColorBlendAttachment {
    pub blend_enable: u32,
    pub src_color_blend_factor: i32,
    pub dst_color_blend_factor: i32,
    pub color_blend_op: i32,
    pub src_alpha_blend_factor: i32,
    pub dst_alpha_blend_factor: i32,
    pub alpha_blend_op: i32,
    pub color_write_mask: u32,
}

/// Color components written for a write mask: each of red, green, blue
/// and alpha that the mask has.
pub open spec fn spec_color_write_mask(mask: u8) -> u32 {
    (if mask & WRITE_MASK_RED == WRITE_MASK_RED { vulkan::COLOR_COMPONENT_R } else { 0u32 })
        | (if mask & WRITE_MASK_GREEN == WRITE_MASK_GREEN { vulkan::COLOR_COMPONENT_G } else { 0u32 })
        | (if mask & WRITE_MASK_BLUE == WRITE_MASK_BLUE { vulkan::COLOR_COMPONENT_B } else { 0u32 })
        | (if mask & WRITE_MASK_ALPHA == WRITE_MASK_ALPHA { vulkan::COLOR_COMPONENT_A } else { 0u32 })
}

proof fn lemma_color_write_bits(mask: u8)
    by (bit_vector)
    ensures
        (spec_color_write_mask(mask) & 1u32 != 0) == (mask & 1u8 != 0),
        (spec_color_write_mask(mask) & 2u32 != 0) == (mask & 2u8 != 0),
        (spec_color_write_mask(mask) & 4u32 != 0) == (mask & 4u8 != 0),
        (spec_color_write_mask(mask) & 8u32 != 0) == (mask & 8u8 != 0),
        spec_color_write_mask(mask) < 16u32,
{
}

/// A render target writes exactly the color components its write mask
/// names: red, green, blue and alpha each carry over, and nothing else.
pub proof fn lemma_color_write_components(mask: u8)
    ensures
        (spec_color_write_mask(mask) & vulkan::COLOR_COMPONENT_R != 0) == (mask & WRITE_MASK_RED != 0),
        (spec_color_write_mask(mask) & vulkan::COLOR_COMPONENT_G != 0) == (mask & WRITE_MASK_GREEN != 0),
        (spec_color_write_mask(mask) & vulkan::COLOR_COMPONENT_B != 0) == (mask & WRITE_MASK_BLUE != 0),
        (spec_color_write_mask(mask) & vulkan::COLOR_COMPONENT_A != 0) == (mask & WRITE_MASK_ALPHA != 0),
        spec_color_write_mask(mask) < 16,
{
    lemma_color_write_bits(mask);
}

pub fn color_write_mask(mask: u8) -> (r: u32)
    ensures
        r == spec_color_write_mask(mask),
        (r & vulkan::COLOR_COMPONENT_R != 0) == (mask & WRITE_MASK_RED != 0),
        (r & vulkan::COLOR_COMPONENT_G != 0) == (mask & WRITE_MASK_GREEN != 0),
        (r & vulkan::COLOR_COMPONENT_B != 0) == (mask & WRITE_MASK_BLUE != 0),
        (r & vulkan::COLOR_COMPONENT_A != 0) == (mask & WRITE_MASK_ALPHA != 0),
{
    proof {
        lemma_color_write_components(mask);
    }
    let r: u32 = if mask & WRITE_MASK_RED == WRITE_MASK_RED { vulkan::COLOR_COMPONENT_R } else { 0u32 };
    let g: u32 = if mask & WRITE_MASK_GREEN == WRITE_MASK_GREEN { vulkan::COLOR_COMPONENT_G } else { 0u32 };
    let b: u32 = if mask & WRITE_MASK_BLUE == WRITE_MASK_BLUE { vulkan::COLOR_COMPONENT_B } else { 0u32 };
    let a: u32 = if mask & WRITE_MASK_ALPHA == WRITE_MASK_ALPHA { vulkan::COLOR_COMPONENT_A } else { 0u32 };
    r | g | b | a
}

/// The attachment state with everything off.
pub open spec fn disabled_blend_attachment() -> ColorBlendAttachment {
    ColorBlendAttachment {
        blend_enable: vulkan::FALSE,
        src_color_blend_factor: vulkan::BLEND_FACTOR_ZERO,
        dst_color_blend_factor: vulkan::BLEND_FACTOR_ZERO,
        color_blend_op: vulkan::BLEND_OP_ADD,
        src_alpha_blend_factor: vulkan::BLEND_FACTOR_ZERO,
        dst_alpha_blend_factor: vulkan::BLEND_FACTOR_ZERO,
        alpha_blend_op: vulkan::BLEND_OP_ADD,
        color_write_mask: 0,
    }
}

/// Blend state of one attachment: off for a target without a format,
/// else the target's blend factors and operations and its write mask.
pub open spec fn spec_color_blend_attachment(format: RenderFormat, blend: RenderTargetBlendState, mask: u8) -> ColorBlendAttachment {
    if format == RenderFormat::Unknown {
        disabled_blend_attachment()
    } else {
        ColorBlendAttachment {
            blend_enable: if blend.blend_enable { vulkan::TRUE } else { vulkan::FALSE },
            src_color_blend_factor: spec_get_blend_factor(blend.source_color),
            dst_color_blend_factor: spec_get_blend_factor(blend.dest_color),
            color_blend_op: spec_get_blend_op(blend.op_color),
            src_alpha_blend_factor: spec_get_blend_factor(blend.source_alpha),
            dst_alpha_blend_factor: spec_get_blend_factor(blend.dest_alpha),
            alpha_blend_op: spec_get_blend_op(blend.op_alpha),
            color_write_mask: spec_color_write_mask(mask),
        }
    }
}

/// Blend state of every render target slot, one entry per slot.
pub fn color_blend_attachments(
    formats: &Vec<RenderFormat>,
    blend_states: &Vec<RenderTargetBlendState>,
    write_masks: &Vec<u8>,
) -> (r: Vec<ColorBlendAttachment>)
    requires
        blend_states@.len() == formats@.len(),
        write_masks@.len() == formats@.len(),
    ensures
        r@ == Seq::new(formats@.len(), |i: int| spec_color_blend_attachment(formats@[i], blend_states@[i], write_masks@[i])),
{
    let mut r: Vec<ColorBlendAttachment> = Vec::new();
    let mut i: usize = 0;
    while i < formats.len()
        invariant
            i <= formats@.len(),
            blend_states@.len() == formats@.len(),
            write_masks@.len() == formats@.len(),
            r@ == Seq::new(i as nat, |k: int| spec_color_blend_attachment(formats@[k], blend_states@[k], write_masks@[k])),
        decreases formats@.len() - i,
    {
        let attachment = if formats[i] == RenderFormat::Unknown {
            ColorBlendAttachment {
                blend_enable: vulkan::FALSE,
                src_color_blend_factor: vulkan::BLEND_FACTOR_ZERO,
                dst_color_blend_factor: vulkan::BLEND_FACTOR_ZERO,
                color_blend_op: vulkan::BLEND_OP_ADD,
                src_alpha_blend_factor: vulkan::BLEND_FACTOR_ZERO,
                dst_alpha_blend_factor: vulkan::BLEND_FACTOR_ZERO,
                alpha_blend_op: vulkan::BLEND_OP_ADD,
                color_write_mask: 0,
            }
        } else {
            let blend = blend_states[i];
            ColorBlendAttachment {
                blend_enable: if blend.blend_enable { vulkan::TRUE } else { vulkan::FALSE },
                src_color_blend_factor: get_blend_factor(blend.source_color),
                dst_color_blend_factor: get_blend_factor(blend.dest_color),
                color_blend_op: get_blend_op(blend.op_color),
                src_alpha_blend_factor: get_blend_factor(blend.source_alpha),
                dst_alpha_blend_factor: get_blend_factor(blend.dest_alpha),
                alpha_blend_op: get_blend_op(blend.op_alpha),
                color_write_mask: color_write_mask(write_masks[i]),
            }
        };
        r.push(attachment);
        i += 1;
        assert(r@ =~= Seq::new(i as nat, |k: int| spec_color_blend_attachment(formats@[k], blend_states@[k], write_masks@[k])));
    }
    r
}

// ---------------------------------------------------------------------
// Pipeline layout

/// The layouts of the graphics stages merged in order into `combined`;
/// stages of other kinds are skipped. `None` marks a conflict.
pub open spec fn merge_stages(combined: Seq<LayoutView>, stages: Seq<(RenderShaderType, RenderShaderVk)>) -> Option<Seq<LayoutView>>
    decreases stages.len(),
{
    if stages.len() == 0 {
        Some(combined)
    } else {
        match merge_stages(combined, stages.drop_last()) {
            Some(acc) => if spec_is_graphics_stage(stages.last().0) {
                merge_sets(acc, shader_layouts_view(stages.last().1.set_layouts@))
            } else {
                Some(acc)
            },
            None => None,
        }
    }
}

/// The layout bindings of the static samplers, in order.
pub open spec fn spec_sampler_bindings(samplers: Seq<u64>) -> Seq<DescriptorSetLayoutBinding> {
    Seq::new(samplers.len(), |i: int| spec_static_sampler_binding(i, samplers[i]))
}

/// The descriptor side of a graphics pipeline's layout, before the driver
/// creates its objects: the static sampler bindings, the merged set
/// layouts of its stages in ascending order of set, each ending with the
/// static sampler bindings, and the descriptor pool sizes they need.
pub struct PipelineLayoutData {
    pub sampler_layouts: Vec<DescriptorSetLayoutBinding>,
    pub combined_layouts: Vec<DescriptorSetLayout>,
    pub pool_sizes: Vec<DescriptorPoolSize>,
}

/// Build the descriptor side of a graphics pipeline's layout from its
/// stages (each with the shader bound to it) and its static samplers: the
/// set layouts of the graphics stages are merged in stage order, ordered by
/// set, given the static sampler bindings, and their bindings are counted
/// into pool sizes.
pub fn pipeline_layout_data(stages: &Vec<(RenderShaderType, RenderShaderVk)>, static_samplers: &Vec<u64>) -> (r: PipelineLayoutData)
    requires
        merge_stages(Seq::empty(), stages@) is Some,
        static_samplers@.len() + SMP_OFFSET <= u32::MAX,
        layout_binding_types(merge_stages(Seq::empty(), stages@)->0).len()
            + merge_stages(Seq::empty(), stages@)->0.len() * static_samplers@.len() < u32::MAX,
    ensures
        r.sampler_layouts@ == spec_sampler_bindings(static_samplers@),
        exists|order: Seq<LayoutView>| {
            &&& #[trigger] order.to_multiset() == merge_stages(Seq::empty(), stages@)->0.to_multiset()
            &&& sorted_by_set(order)
            &&& layouts_view(r.combined_layouts@) == order.map_values(|l: LayoutView| with_samplers(l, r.sampler_layouts@))
        },
        forall|a: int, b: int| 0 <= a < b < r.combined_layouts@.len()
            ==> (#[trigger] r.combined_layouts@[a]).set_index < (#[trigger] r.combined_layouts@[b]).set_index,
        r.pool_sizes@ == spec_tally_all(layout_binding_types(layouts_view(r.combined_layouts@))),
{
    let sampler_layouts = static_sampler_bindings(static_samplers);
    assert(sampler_layouts@ =~= spec_sampler_bindings(static_samplers@));
    let mut combined: Vec<DescriptorSetLayout> = Vec::new();
    assert(layouts_view(combined@) =~= Seq::<LayoutView>::empty());
    assert(stages@.take(0) =~= Seq::<(RenderShaderType, RenderShaderVk)>::empty());
    let mut i: usize = 0;
    while i < stages.len()
        invariant
            i <= stages@.len(),
            merge_stages(Seq::empty(), stages@) is Some,
            merge_stages(Seq::empty(), stages@.take(i as int)) is Some,
            layouts_view(combined@) == merge_stages(Seq::empty(), stages@.take(i as int))->0,
            set_indices_unique(layouts_view(combined@)),
        decreases stages@.len() - i,
    {
        proof {
            lemma_merge_stages_prefix(Seq::empty(), stages@, i + 1);
            assert(stages@.take(i + 1).drop_last() =~= stages@.take(i as int));
            assert(stages@.take(i + 1).last() == stages@[i as int]);
        }
        if is_graphics_stage(stages[i].0) {
            proof {
                lemma_merge_sets_unique(layouts_view(combined@), shader_layouts_view(stages@[i as int].1.set_layouts@));
            }
            merge_descriptor_set_layouts(&stages[i].1, &mut combined);
        }
        i += 1;
    }
    assert(stages@.take(i as int) =~= stages@);
    let ghost merged = layouts_view(combined@);
    sort_layouts_by_set(&mut combined);
    let ghost order = layouts_view(combined@);
    proof {
        lemma_unique_by_multiset(merged, order);
        lemma_binding_total_perm(merged, order);
        vstd::seq_lib::to_multiset_len(merged);
        vstd::seq_lib::to_multiset_len(order);
        lemma_binding_total_with_samplers(order, sampler_layouts@);
    }
    append_sampler_bindings(&mut combined, &sampler_layouts);
    let pool_sizes = layout_pool_sizes(&combined);
    proof {
        let v = layouts_view(combined@);
        assert forall|a: int, b: int| 0 <= a < b < combined@.len()
            implies (#[trigger] combined@[a]).set_index < (#[trigger] combined@[b]).set_index by {
            assert(v[a] == combined@[a].view());
            assert(v[b] == combined@[b].view());
            assert(v[a].set_index == order[a].set_index);
            assert(v[b].set_index == order[b].set_index);
        }
        assert(order.to_multiset() == merged.to_multiset());
    }
    PipelineLayoutData { sampler_layouts, combined_layouts: combined, pool_sizes }
}

/// Merging a prefix of the stages succeeds when merging all of them does.
proof fn lemma_merge_stages_prefix(combined: Seq<LayoutView>, stages: Seq<(RenderShaderType, RenderShaderVk)>, k: int)
    requires
        0 <= k <= stages.len(),
        merge_stages(combined, stages) is Some,
    ensures
        merge_stages(combined, stages.take(k)) is Some,
    decreases stages.len(),
{
    if k == stages.len() {
        assert(stages.take(k) =~= stages);
    } else {
        assert(stages.drop_last().take(k) =~= stages.take(k));
        lemma_merge_stages_prefix(combined, stages.drop_last(), k);
    }
}

/// Merging one shader set keeps the set indices distinct.
proof fn lemma_merge_set_unique(combined: Seq<LayoutView>, set_index: u32, bs: Seq<DescriptorSetLayoutBinding>)
    requires
        set_indices_unique(combined),
        merge_set(combined, set_index, bs) is Some,
    ensures
        set_indices_unique(merge_set(combined, set_index, bs)->0),
{
    if set_index != SET_OFFSET {
        if set_slot(combined, set_index) < 0 {
            assert forall|i: int| 0 <= i < combined.len() implies combined[i].set_index != set_index by {
                if combined[i].set_index == set_index {
                    assert(is_first_set(combined, set_index, i));
                }
            }
            assert(is_first_set(with_set(combined, set_index), set_index, combined.len() as int));
        } else {
            assert(exists|k: int| is_first_set(combined, set_index, k));
        }
        let base = with_set(combined, set_index);
        assert(set_indices_unique(base));
        let i = set_slot(base, set_index);
        assert(is_first_set(base, set_index, i));
        let res = merge_set(combined, set_index, bs)->0;
        assert forall|a: int, b: int| 0 <= a < b < res.len() implies res[a].set_index != res[b].set_index by {
            assert(res[a].set_index == base[a].set_index);
            assert(res[b].set_index == base[b].set_index);
        }
    }
}

/// Merging a shader's sets keeps the set indices distinct.
proof fn lemma_merge_sets_unique(combined: Seq<LayoutView>, sets: Seq<(u32, Seq<DescriptorSetLayoutBinding>)>)
    requires
        set_indices_unique(combined),
        merge_sets(combined, sets) is Some,
    ensures
        set_indices_unique(merge_sets(combined, sets)->0),
    decreases sets.len(),
{
    if sets.len() > 0 {
        lemma_merge_sets_unique(combined, sets.drop_last());
        lemma_merge_set_unique(merge_sets(combined, sets.drop_last())->0, sets.last().0, sets.last().1);
    }
}

/// A reordering of layouts with distinct set indices has distinct set
/// indices.
proof fn lemma_unique_by_multiset(a: Seq<LayoutView>, b: Seq<LayoutView>)
    requires
        set_indices_unique(a),
        a.to_multiset() == b.to_multiset(),
    ensures
        set_indices_unique(b),
{
    broadcast use vstd::seq_lib::group_to_multiset_ensures;
    assert(a.no_duplicates()) by {
        assert forall|i: int, j: int| 0 <= i < a.len() && 0 <= j < a.len() && i != j implies a[i] != a[j] by {
            if i < j {
                assert(a[i].set_index != a[j].set_index);
            } else {
                assert(a[j].set_index != a[i].set_index);
            }
        }
    }
    a.lemma_multiset_has_no_duplicates();
    b.lemma_multiset_has_no_duplicates_conv();
    assert forall|x: int, y: int| 0 <= x < y < b.len() implies b[x].set_index != b[y].set_index by {
        assert(b.contains(b[x]));
        assert(b.contains(b[y]));
        assert(b.to_multiset().count(b[x]) > 0);
        assert(b.to_multiset().count(b[y]) > 0);
        assert(a.to_multiset().count(b[x]) > 0);
        assert(a.to_multiset().count(b[y]) > 0);
        assert(a.contains(b[x]));
        assert(a.contains(b[y]));
        let p = choose|p: int| 0 <= p < a.len() && a[p] == b[x];
        let q = choose|q: int| 0 <= q < a.len() && a[q] == b[y];
        assert(b[x] != b[y]);
        if p < q {
            assert(a[p].set_index != a[q].set_index);
        } else if q < p {
            assert(a[q].set_index != a[p].set_index);
        }
    }
}

/// Removing a layout removes its bindings from the count.
proof fn lemma_binding_total_remove(s: Seq<LayoutView>, j: int)
    requires
        0 <= j < s.len(),
    ensures
        layout_binding_types(s).len() == layout_binding_types(s.remove(j)).len() + s[j].bindings.len(),
    decreases s.len(),
{
    if j == s.len() - 1 {
        assert(s.remove(j) =~= s.drop_last());
    } else {
        assert(s.remove(j).drop_last() =~= s.drop_last().remove(j));
        assert(s.remove(j).last() == s.last());
        lemma_binding_total_remove(s.drop_last(), j);
    }
}

/// A reordering of layouts has as many bindings.
proof fn lemma_binding_total_perm(a: Seq<LayoutView>, b: Seq<LayoutView>)
    requires
        a.to_multiset() == b.to_multiset(),
    ensures
        layout_binding_types(a).len() == layout_binding_types(b).len(),
    decreases a.len(),
{
    broadcast use vstd::seq_lib::group_to_multiset_ensures;
    if a.len() == 0 {
        assert(b.to_multiset().len() == 0);
        assert(b =~= Seq::<LayoutView>::empty());
    } else {
        let x = a.last();
        assert(a.contains(x)) by {
            assert(a[a.len() - 1] == x);
        }
        assert(a.to_multiset().count(x) > 0);
        assert(b.to_multiset().count(x) > 0);
        assert(b.contains(x));
        let j = choose|j: int| 0 <= j < b.len() && b[j] == x;
        assert(a.remove(a.len() - 1) =~= a.drop_last());
        assert(a.drop_last().to_multiset() =~= b.remove(j).to_multiset());
        lemma_binding_total_perm(a.drop_last(), b.remove(j));
        lemma_binding_total_remove(b, j);
    }
}

/// Adding the sampler bindings to every layout adds that many bindings per
/// layout.
proof fn lemma_binding_total_with_samplers(s: Seq<LayoutView>, samplers: Seq<DescriptorSetLayoutBinding>)
    ensures
        layout_binding_types(s.map_values(|l: LayoutView| with_samplers(l, samplers))).len()
            == layout_binding_types(s).len() + s.len() * samplers.len(),
    decreases s.len(),
{
    if s.len() > 0 {
        let m = s.map_values(|l: LayoutView| with_samplers(l, samplers));
        assert(m.drop_last() =~= s.drop_last().map_values(|l: LayoutView| with_samplers(l, samplers)));
        lemma_binding_total_with_samplers(s.drop_last(), samplers);
        assert(s.len() * samplers.len() == (s.len() - 1) * samplers.len() + samplers.len()) by (nonlinear_arith);
    }
}

} // verus!
