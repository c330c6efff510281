//! Descriptor set layouts: pool size tallies, slot lookups and the merging
//! of the layouts that the shader stages of a pipeline declare.

use vstd::prelude::*;
use crate::vulkan;
use crate::types::{
    DescriptorPoolSize, DescriptorSetLayout, DescriptorSetLayoutBinding, LayoutView, RenderShaderVk,
    layouts_view, shader_layouts_view,
};

verus! {

/// The descriptor set reserved for dynamic constant buffers; shader layouts
/// of this set are not merged.
pub const SET_OFFSET: u32 = 4;

/// Binding offsets of the descriptor kinds within a set: constant buffers,
/// shader resource views, samplers and unordered access views.
pub const CBV_OFFSET: u32 = 0;
pub const SRV_OFFSET: u32 = 30;
pub const SMP_OFFSET: u32 = 4;
pub const UAV_OFFSET: u32 = 60;

/// Set index offset of the descriptor sets that hold shader arguments.
pub const ARG_OFFSET: u32 = 0;

// ---------------------------------------------------------------------
// Pool sizes

/// `i` is the first entry of `s` for descriptor type `ty`.
pub open spec fn is_first_pool_size(s: Seq<DescriptorPoolSize>, ty: i32, i: int) -> bool {
    &&& 0 <= i < s.len()
    &&& s[i].ty == ty
    &&& forall|j: int| 0 <= j < i ==> s[j].ty != ty
}

/// No entry of `s` is for descriptor type `ty`.
pub open spec fn no_pool_size(s: Seq<DescriptorPoolSize>, ty: i32) -> bool {
    forall|j: int| 0 <= j < s.len() ==> s[j].ty != ty
}

/// Count one more descriptor of `descriptor_type`: the first entry of that
/// type grows by one, or a new entry with count 1 is appended.
pub fn tally_descriptor_pool_sizes(pool_sizes: &mut Vec<DescriptorPoolSize>, descriptor_type: i32)
    requires
        forall|i: int| is_first_pool_size(old(pool_sizes)@, descriptor_type, i)
            ==> old(pool_sizes)@[i].descriptor_count < u32::MAX,
    ensures
        forall|i: int| is_first_pool_size(old(pool_sizes)@, descriptor_type, i)
            ==> final(pool_sizes)@ == old(pool_sizes)@.update(
                i,
                DescriptorPoolSize {
                    ty: descriptor_type,
                    descriptor_count: (old(pool_sizes)@[i].descriptor_count + 1) as u32,
                },
            ),
        no_pool_size(old(pool_sizes)@, descriptor_type)
            ==> final(pool_sizes)@ == old(pool_sizes)@.push(DescriptorPoolSize { ty: descriptor_type, descriptor_count: 1 }),
{
    let mut type_index: usize = 0;
    while type_index < pool_sizes.len()
        invariant
            type_index <= pool_sizes.len(),
            pool_sizes@ == old(pool_sizes)@,
            forall|j: int| 0 <= j < type_index ==> pool_sizes@[j].ty != descriptor_type,
            forall|i: int| is_first_pool_size(old(pool_sizes)@, descriptor_type, i)
                ==> old(pool_sizes)@[i].descriptor_count < u32::MAX,
        decreases pool_sizes.len() - type_index,
    {
        if pool_sizes[type_index].ty == descriptor_type {
            assert(is_first_pool_size(old(pool_sizes)@, descriptor_type, type_index as int));
            let entry = DescriptorPoolSize {
                ty: descriptor_type,
                descriptor_count: pool_sizes[type_index].descriptor_count + 1,
            };
            pool_sizes.set(type_index, entry);
            return;
        }
        type_index += 1;
    }
    pool_sizes.push(DescriptorPoolSize { ty: descriptor_type, descriptor_count: 1 });
}

// ---------------------------------------------------------------------
// Slot lookups

/// `i` is the first layout of `s` for set `set`.
pub open spec fn is_first_set(s: Seq<LayoutView>, set: u32, i: int) -> bool {
    &&& 0 <= i < s.len()
    &&& s[i].set_index == set
    &&& forall|j: int| 0 <= j < i ==> s[j].set_index != set
}

/// Index of the first layout for `set`, or -1 when there is none.
pub open spec fn set_slot(s: Seq<LayoutView>, set: u32) -> int {
    if exists|i: int| is_first_set(s, set, i) {
        choose|i: int| is_first_set(s, set, i)
    } else {
        -1
    }
}

/// `i` is the first binding of `s` with binding number `binding`.
pub open spec fn is_first_binding(s: Seq<DescriptorSetLayoutBinding>, binding: u32, i: int) -> bool {
    &&& 0 <= i < s.len()
    &&& s[i].binding == binding
    &&& forall|j: int| 0 <= j < i ==> s[j].binding != binding
}

/// Index of the first binding numbered `binding`, or -1 when there is none.
pub open spec fn binding_slot(s: Seq<DescriptorSetLayoutBinding>, binding: u32) -> int {
    if exists|i: int| is_first_binding(s, binding, i) {
        choose|i: int| is_first_binding(s, binding, i)
    } else {
        -1
    }
}

proof fn lemma_set_slot_is(s: Seq<LayoutView>, set: u32, i: int)
    requires
        is_first_set(s, set, i),
    ensures
        set_slot(s, set) == i,
{
    let k = choose|k: int| is_first_set(s, set, k);
    assert(is_first_set(s, set, k));
    if k < i {
        assert(s[k].set_index != set);
    } else if k > i {
        assert(s[i].set_index != set);
    }
}

proof fn lemma_binding_slot_is(s: Seq<DescriptorSetLayoutBinding>, binding: u32, i: int)
    requires
        is_first_binding(s, binding, i),
    ensures
        binding_slot(s, binding) == i,
{
    let k = choose|k: int| is_first_binding(s, binding, k);
    assert(is_first_binding(s, binding, k));
    if k < i {
        assert(s[k].binding != binding);
    } else if k > i {
        assert(s[i].binding != binding);
    }
}

pub(crate) fn set_position(layouts: &Vec<DescriptorSetLayout>, set: u32) -> (r: Option<usize>)
    ensures
        match r {
            Some(i) => is_first_set(layouts_view(layouts@), set, i as int) && set_slot(layouts_view(layouts@), set) == i,
            None => set_slot(layouts_view(layouts@), set) == -1
                && forall|j: int| 0 <= j < layouts@.len() ==> layouts@[j].set_index != set,
        },
{
    let ghost v = layouts_view(layouts@);
    let mut slot_index: usize = 0;
    while slot_index < layouts.len()
        invariant
            slot_index <= layouts.len(),
            v == layouts_view(layouts@),
            forall|j: int| 0 <= j < slot_index ==> layouts@[j].set_index != set,
        decreases layouts.len() - slot_index,
    {
        if layouts[slot_index].set_index == set {
            proof {
                assert forall|j: int| 0 <= j < slot_index implies v[j].set_index != set by {
                    assert(v[j] == layouts@[j].view());
                }
                assert(is_first_set(v, set, slot_index as int));
                lemma_set_slot_is(v, set, slot_index as int);
            }
            return Some(slot_index);
        }
        slot_index += 1;
    }
    proof {
        assert forall|i: int| !is_first_set(v, set, i) by {
            if 0 <= i < v.len() {
                assert(v[i] == layouts@[i].view());
            }
        }
    }
    None
}

pub(crate) fn binding_position(bindings: &Vec<DescriptorSetLayoutBinding>, binding: u32) -> (r: Option<usize>)
    ensures
        match r {
            Some(i) => is_first_binding(bindings@, binding, i as int) && binding_slot(bindings@, binding) == i,
            None => binding_slot(bindings@, binding) == -1
                && forall|j: int| 0 <= j < bindings@.len() ==> bindings@[j].binding != binding,
        },
{
    let mut slot_index: usize = 0;
    while slot_index < bindings.len()
        invariant
            slot_index <= bindings.len(),
            forall|j: int| 0 <= j < slot_index ==> bindings@[j].binding != binding,
        decreases bindings.len() - slot_index,
    {
        if bindings[slot_index].binding == binding {
            proof {
                lemma_binding_slot_is(bindings@, binding, slot_index as int);
            }
            return Some(slot_index);
        }
        slot_index += 1;
    }
    None
}

/// Index of the first layout for `set`, or -1.
pub fn find_layout_set(layouts: &Vec<DescriptorSetLayout>, set: u32) -> (r: i32)
    requires
        layouts@.len() <= i32::MAX,
    ensures
        r == set_slot(layouts_view(layouts@), set),
{
    match set_position(layouts, set) {
        Some(i) => i as i32,
        None => -1,
    }
}

/// Index of the first binding of `layout` numbered `binding`, or -1.
pub fn find_layout_binding(layout: &DescriptorSetLayout, binding: u32) -> (r: i32)
    requires
        layout.bindings@.len() <= i32::MAX,
    ensures
        r == binding_slot(layout.bindings@, binding),
{
    match binding_position(&layout.bindings, binding) {
        Some(i) => i as i32,
        None => -1,
    }
}

// ---------------------------------------------------------------------
// Merging

/// Two declarations of one binding agree: same number, type and count, and
/// neither bakes in a sampler.
pub open spec fn bindings_compatible(a: DescriptorSetLayoutBinding, b: DescriptorSetLayoutBinding) -> bool {
    &&& a.binding == b.binding
    &&& a.descriptor_type == b.descriptor_type
    &&& a.descriptor_count == b.descriptor_count
    &&& a.immutable_sampler is None
    &&& b.immutable_sampler is None
}

/// `a` used by the stages of `b` as well.
pub open spec fn with_stages(a: DescriptorSetLayoutBinding, b: DescriptorSetLayoutBinding) -> DescriptorSetLayoutBinding {
    DescriptorSetLayoutBinding {
        binding: a.binding,
        descriptor_type: a.descriptor_type,
        descriptor_count: a.descriptor_count,
        stage_flags: a.stage_flags | b.stage_flags,
        immutable_sampler: a.immutable_sampler,
    }
}

/// One declared binding merged into a set's bindings: samplers are skipped
/// (static samplers are added separately), a new binding number is
/// appended, and a repeated one must agree and adds its stages. `None`
/// marks a conflict.
pub open spec fn merge_binding(bindings: Seq<DescriptorSetLayoutBinding>, b: DescriptorSetLayoutBinding) -> Option<Seq<DescriptorSetLayoutBinding>> {
    if b.descriptor_type == vulkan::DESCRIPTOR_TYPE_SAMPLER {
        Some(bindings)
    } else {
        let i = binding_slot(bindings, b.binding);
        if i < 0 {
            Some(bindings.push(b))
        } else if bindings_compatible(bindings[i], b) {
            Some(bindings.update(i, with_stages(bindings[i], b)))
        } else {
            None
        }
    }
}

/// The declared bindings `bs` merged in order.
pub open spec fn merge_bindings(bindings: Seq<DescriptorSetLayoutBinding>, bs: Seq<DescriptorSetLayoutBinding>) -> Option<Seq<DescriptorSetLayoutBinding>>
    decreases bs.len(),
{
    if bs.len() == 0 {
        Some(bindings)
    } else {
        match merge_bindings(bindings, bs.drop_last()) {
            Some(acc) => merge_binding(acc, bs.last()),
            None => None,
        }
    }
}

/// The layouts with a set for `set_index`: an empty one is appended when
/// none exists.
pub open spec fn with_set(combined: Seq<LayoutView>, set_index: u32) -> Seq<LayoutView> {
    if set_slot(combined, set_index) < 0 {
        combined.push(LayoutView { set_index, bindings: Seq::empty(), layout: 0 })
    } else {
        combined
    }
}

/// One shader set merged into the combined layouts. The reserved constant
/// buffer set is skipped.
pub open spec fn merge_set(combined: Seq<LayoutView>, set_index: u32, bs: Seq<DescriptorSetLayoutBinding>) -> Option<Seq<LayoutView>> {
    if set_index == SET_OFFSET {
        Some(combined)
    } else {
        let base = with_set(combined, set_index);
        let i = set_slot(base, set_index);
        match merge_bindings(base[i].bindings, bs) {
            Some(nb) => Some(base.update(i, LayoutView { set_index: base[i].set_index, bindings: nb, layout: base[i].layout })),
            None => None,
        }
    }
}

/// All of a shader's sets merged in order; `None` marks a conflict.
pub open spec fn merge_sets(combined: Seq<LayoutView>, sets: Seq<(u32, Seq<DescriptorSetLayoutBinding>)>) -> Option<Seq<LayoutView>>
    decreases sets.len(),
{
    if sets.len() == 0 {
        Some(combined)
    } else {
        match merge_sets(combined, sets.drop_last()) {
            Some(acc) => merge_set(acc, sets.last().0, sets.last().1),
            None => None,
        }
    }
}

proof fn lemma_merge_bindings_prefix(bindings: Seq<DescriptorSetLayoutBinding>, bs: Seq<DescriptorSetLayoutBinding>, k: int)
    requires
        0 <= k <= bs.len(),
        merge_bindings(bindings, bs) is Some,
    ensures
        merge_bindings(bindings, bs.take(k)) is Some,
    decreases bs.len(),
{
    if k == bs.len() {
        assert(bs.take(k) =~= bs);
    } else {
        assert(bs.drop_last().take(k) =~= bs.take(k));
        lemma_merge_bindings_prefix(bindings, bs.drop_last(), k);
    }
}

proof fn lemma_merge_sets_prefix(combined: Seq<LayoutView>, sets: Seq<(u32, Seq<DescriptorSetLayoutBinding>)>, k: int)
    requires
        0 <= k <= sets.len(),
        merge_sets(combined, sets) is Some,
    ensures
        merge_sets(combined, sets.take(k)) is Some,
    decreases sets.len(),
{
    if k == sets.len() {
        assert(sets.take(k) =~= sets);
    } else {
        assert(sets.drop_last().take(k) =~= sets.take(k));
        lemma_merge_sets_prefix(combined, sets.drop_last(), k);
    }
}

fn merge_binding_into(bindings: &mut Vec<DescriptorSetLayoutBinding>, b: DescriptorSetLayoutBinding)
    requires
        merge_binding(old(bindings)@, b) is Some,
    ensures
        final(bindings)@ == merge_binding(old(bindings)@, b)->0,
{
    // Ignore reflected samplers, as static sampler bindings are used exclusively.
    if b.descriptor_type == vulkan::DESCRIPTOR_TYPE_SAMPLER {
        return;
    }
    match binding_position(bindings, b.binding) {
        None => {
            bindings.push(b);
        },
        Some(i) => {
            // Descriptors are shared across all stages, so the declarations
            // must agree; only the stage flags differ, and they are joined.
            let existing = bindings[i];
            let merged = DescriptorSetLayoutBinding {
                binding: existing.binding,
                descriptor_type: existing.descriptor_type,
                descriptor_count: existing.descriptor_count,
                stage_flags: existing.stage_flags | b.stage_flags,
                immutable_sampler: existing.immutable_sampler,
            };
            bindings.set(i, merged);
        },
    }
}

fn merge_set_into(combined_layouts: &mut Vec<DescriptorSetLayout>, set_index: u32, bs: &Vec<DescriptorSetLayoutBinding>)
    requires
        merge_set(layouts_view(old(combined_layouts)@), set_index, bs@) is Some,
    ensures
        layouts_view(final(combined_layouts)@) == merge_set(layouts_view(old(combined_layouts)@), set_index, bs@)->0,
{
    if set_index == SET_OFFSET {
        return;
    }
    let ghost v0 = layouts_view(combined_layouts@);
    // Does the combined layout already contain this set?
    let slot = match set_position(combined_layouts, set_index) {
        Some(i) => i,
        None => {
            // Set doesn't yet exist in the global mapping - add it.
            combined_layouts.push(DescriptorSetLayout { set_index, bindings: Vec::new(), layout: 0 });
            proof {
                let v1 = layouts_view(combined_layouts@);
                assert(v1 =~= v0.push(LayoutView { set_index, bindings: Seq::empty(), layout: 0 }));
                assert forall|j: int| 0 <= j < v0.len() implies v1[j].set_index != set_index by {
                    assert(v1[j] == v0[j]);
                    assert(v0[j] == old(combined_layouts)@[j].view());
                }
                assert(is_first_set(v1, set_index, v0.len() as int));
                lemma_set_slot_is(v1, set_index, v0.len() as int);
            }
            combined_layouts.len() - 1
        },
    };
    let ghost base = layouts_view(combined_layouts@);
    assert(base == with_set(v0, set_index));
    assert(set_slot(base, set_index) == slot);
    let mut layout = combined_layouts.remove(slot);
    let ghost start = layout.bindings@;
    assert(start == base[slot as int].bindings);
    proof {
        lemma_merge_bindings_prefix(start, bs@, 0);
        assert(bs@.take(0) =~= Seq::<DescriptorSetLayoutBinding>::empty());
    }
    let mut k: usize = 0;
    while k < bs.len()
        invariant
            k <= bs@.len(),
            merge_bindings(start, bs@) is Some,
            merge_bindings(start, bs@.take(k as int)) is Some,
            layout.bindings@ == merge_bindings(start, bs@.take(k as int))->0,
            layout.set_index == base[slot as int].set_index,
            layout.layout == base[slot as int].layout,
        decreases bs@.len() - k,
    {
        proof {
            lemma_merge_bindings_prefix(start, bs@, k + 1);
            assert(bs@.take(k + 1).drop_last() =~= bs@.take(k as int));
            assert(bs@.take(k + 1).last() == bs@[k as int]);
        }
        merge_binding_into(&mut layout.bindings, bs[k]);
        k += 1;
    }
    assert(bs@.take(k as int) =~= bs@);
    let ghost new_view = layout.view();
    combined_layouts.insert(slot, layout);
    proof {
        let v2 = layouts_view(combined_layouts@);
        assert(v2 =~= base.update(slot as int, new_view));
    }
}

/// Merge a shader stage's descriptor set layouts into the layouts combined
/// so far. The stages must agree on every binding they share; the result is `merge_sets` of the two.
pub fn merge_descriptor_set_layouts(shader: &RenderShaderVk, combined_layouts: &mut Vec<DescriptorSetLayout>)
    requires
        merge_sets(layouts_view(old(combined_layouts)@), shader_layouts_view(shader.set_layouts@)) is Some,
    ensures
        layouts_view(final(combined_layouts)@)
            == merge_sets(layouts_view(old(combined_layouts)@), shader_layouts_view(shader.set_layouts@))->0,
{
    let ghost c0 = layouts_view(combined_layouts@);
    let ghost sets = shader_layouts_view(shader.set_layouts@);
    let shader_layouts = &shader.set_layouts;
    proof {
        lemma_merge_sets_prefix(c0, sets, 0);
        assert(sets.take(0) =~= Seq::<(u32, Seq<DescriptorSetLayoutBinding>)>::empty());
    }
    let mut n: usize = 0;
    while n < shader_layouts.len()
        invariant
            n <= shader_layouts@.len(),
            sets == shader_layouts_view(shader_layouts@),
            merge_sets(c0, sets) is Some,
            merge_sets(c0, sets.take(n as int)) is Some,
            layouts_view(combined_layouts@) == merge_sets(c0, sets.take(n as int))->0,
        decreases shader_layouts@.len() - n,
    {
        proof {
            lemma_merge_sets_prefix(c0, sets, n + 1);
            assert(sets.take(n + 1).drop_last() =~= sets.take(n as int));
            assert(sets.take(n + 1).last() == sets[n as int]);
        }
        let entry = &shader_layouts[n];
        merge_set_into(combined_layouts, entry.0, &entry.1);
        n += 1;
    }
    assert(sets.take(n as int) =~= sets);
}

} // verus!
