//! Shaders: how the descriptor bindings a shader declares are moved to the
//! backend's fixed binding ranges and sets, and how the reflected bindings
//! become descriptor set layout bindings.

use vstd::prelude::*;
use crate::vulkan;
use crate::types::DescriptorSetLayoutBinding;
use crate::descriptors::CBV_OFFSET;
use crate::descriptors::SRV_OFFSET;
use crate::descriptors::SMP_OFFSET;
use crate::descriptors::UAV_OFFSET;
use crate::descriptors::SET_OFFSET;
use crate::descriptors::ARG_OFFSET;

verus! {

/// Kind of resource a reflected binding refers to.
#[derive(Clone, Copy, Debug, PartialEq, Eq, Structural)]
pub enum ReflectResourceType {
    Undefined,
    Sampler,
    CombinedImageSampler,
    ConstantBufferView,
    ShaderResourceView,
    UnorderedAccessView,
}

/// A binding as reflected from a shader: its number and resource kind.
#[derive(Clone, Copy, Debug, PartialEq, Eq, Structural)]
pub struct ReflectedBinding {
    pub binding: u32,
    pub resource_type: ReflectResourceType,
}

/// Where a binding moves: its position in its set, and its old and new
/// binding number and set.
#[derive(Clone, Copy, Debug, PartialEq, Eq, Structural)]
pub struct BindingSetRemap {
    pub binding_index: u32,
    pub old_binding: u32,
    pub new_binding: u32,
    pub old_set: u32,
    pub new_set: u32,
}

/// Bindings that can be moved: constant buffers are binding 0 of their set
/// and their new set must not collide with a set of the shader; samplers,
/// shader resource views and unordered access views can always move, as
/// long as the new number fits. Other kinds are not supported.
pub open spec fn remap_ok(set_index: int, set_count: int, b: ReflectedBinding) -> bool {
    &&& set_index + SET_OFFSET <= u32::MAX
    &&& b.binding + UAV_OFFSET <= u32::MAX
    &&& match b.resource_type {
        ReflectResourceType::ConstantBufferView => b.binding == 0 && SET_OFFSET + set_index >= set_count
            && b.binding + CBV_OFFSET + set_index <= u32::MAX,
        ReflectResourceType::ShaderResourceView => true,
        ReflectResourceType::Sampler => true,
        ReflectResourceType::UnorderedAccessView => true,
        _ => false,
    }
}

/// The move of a binding: constant buffers go to their own set past the
/// argument sets; the other kinds keep their set and move into their
/// binding range.
pub open spec fn spec_binding_remap(set_index: int, binding_index: int, b: ReflectedBinding) -> BindingSetRemap {
    match b.resource_type {
        ReflectResourceType::ConstantBufferView => BindingSetRemap {
            binding_index: binding_index as u32,
            old_binding: b.binding,
            new_binding: (b.binding + CBV_OFFSET + set_index) as u32,
            old_set: set_index as u32,
            new_set: (SET_OFFSET + set_index) as u32,
        },
        ReflectResourceType::ShaderResourceView => BindingSetRemap {
            binding_index: binding_index as u32,
            old_binding: b.binding,
            new_binding: (b.binding + SRV_OFFSET) as u32,
            old_set: set_index as u32,
            new_set: (ARG_OFFSET + set_index) as u32,
        },
        ReflectResourceType::Sampler => BindingSetRemap {
            binding_index: binding_index as u32,
            old_binding: b.binding,
            new_binding: (b.binding + SMP_OFFSET) as u32,
            old_set: set_index as u32,
            new_set: (ARG_OFFSET + set_index) as u32,
        },
        _ => BindingSetRemap {
            binding_index: binding_index as u32,
            old_binding: b.binding,
            new_binding: (b.binding + UAV_OFFSET) as u32,
            old_set: set_index as u32,
            new_set: (ARG_OFFSET + set_index) as u32,
        },
    }
}

/// Moved constant buffers land in sets past all of the shader's own sets,
/// every other kind of binding stays in its set, and a move keeps the
/// position it names.
pub proof fn lemma_moves_keep_sets_apart(set_index: int, set_count: int, binding_index: int, b: ReflectedBinding)
    requires
        0 <= set_index < set_count,
        0 <= binding_index <= u32::MAX,
        remap_ok(set_index, set_count, b),
    ensures
        b.resource_type == ReflectResourceType::ConstantBufferView
            ==> spec_binding_remap(set_index, binding_index, b).new_set >= set_count,
        b.resource_type != ReflectResourceType::ConstantBufferView
            ==> spec_binding_remap(set_index, binding_index, b).new_set == set_index,
        spec_binding_remap(set_index, binding_index, b).old_set == set_index,
        spec_binding_remap(set_index, binding_index, b).old_binding == b.binding,
        spec_binding_remap(set_index, binding_index, b).binding_index == binding_index,
{
}

/// The moves of one set's bindings, in order.
pub open spec fn set_remaps(set_index: int, bindings: Seq<ReflectedBinding>) -> Seq<BindingSetRemap> {
    Seq::new(bindings.len(), |i: int| spec_binding_remap(set_index, i, bindings[i]))
}

/// The moves applied while patching set `k`: those of every set up to and
/// including `k` (the list is not cleared between sets).
pub open spec fn accumulated_remaps(sets: Seq<Seq<ReflectedBinding>>, k: int) -> Seq<BindingSetRemap>
    decreases k,
{
    if k <= 0 {
        set_remaps(0, sets[0])
    } else {
        accumulated_remaps(sets, k - 1) + set_remaps(k, sets[k])
    }
}

/// Shaders whose bindings can all be moved, and in which every move
/// applied to a set names a binding position that set has.
pub open spec fn remaps_ok(sets: Seq<Seq<ReflectedBinding>>) -> bool {
    &&& sets.len() <= u32::MAX
    &&& forall|s: int| 0 <= s < sets.len() ==> (#[trigger] sets[s]).len() <= u32::MAX
    &&& forall|s: int, i: int| 0 <= s < sets.len() && 0 <= i < sets[s].len() ==> remap_ok(s, sets.len() as int, #[trigger] sets[s][i])
    &&& forall|s: int, i: int| 0 <= s < sets.len() && 0 <= i < accumulated_remaps(sets, s).len()
        ==> (#[trigger] accumulated_remaps(sets, s)[i]).binding_index < sets[s].len()
}

/// The move of one binding.
pub fn binding_remap(set_index: u32, set_count: u32, binding_index: u32, b: ReflectedBinding) -> (r: BindingSetRemap)
    requires
        remap_ok(set_index as int, set_count as int, b),
    ensures
        r == spec_binding_remap(set_index as int, binding_index as int, b),
{
    match b.resource_type {
        ReflectResourceType::ConstantBufferView => BindingSetRemap {
            binding_index,
            old_binding: b.binding,
            new_binding: b.binding + CBV_OFFSET + set_index,
            old_set: set_index,
            new_set: SET_OFFSET + set_index,
        },
        ReflectResourceType::ShaderResourceView => BindingSetRemap {
            binding_index,
            old_binding: b.binding,
            new_binding: b.binding + SRV_OFFSET,
            old_set: set_index,
            new_set: ARG_OFFSET + set_index,
        },
        ReflectResourceType::Sampler => BindingSetRemap {
            binding_index,
            old_binding: b.binding,
            new_binding: b.binding + SMP_OFFSET,
            old_set: set_index,
            new_set: ARG_OFFSET + set_index,
        },
        _ => BindingSetRemap {
            binding_index,
            old_binding: b.binding,
            new_binding: b.binding + UAV_OFFSET,
            old_set: set_index,
            new_set: ARG_OFFSET + set_index,
        },
    }
}

/// The moves to apply to each set of a shader, set by set: for set `k`,
/// the moves of all sets up to `k`.
pub fn plan_binding_remaps(sets: &Vec<Vec<ReflectedBinding>>) -> (r: Vec<Vec<BindingSetRemap>>)
    requires
        remaps_ok(sets@.map_values(|s: Vec<ReflectedBinding>| s@)),
    ensures
        r@.len() == sets@.len(),
        forall|k: int| 0 <= k < sets@.len() ==> (#[trigger] r@[k])@
            == accumulated_remaps(sets@.map_values(|s: Vec<ReflectedBinding>| s@), k),
{
    let ghost views = sets@.map_values(|s: Vec<ReflectedBinding>| s@);
    let n = sets.len();
    let mut remaps: Vec<BindingSetRemap> = Vec::new();
    let mut r: Vec<Vec<BindingSetRemap>> = Vec::new();
    let mut s: usize = 0;
    while s < n
        invariant
            s <= n,
            n == sets@.len(),
            views == sets@.map_values(|v: Vec<ReflectedBinding>| v@),
            remaps_ok(views),
            r@.len() == s,
            forall|k: int| 0 <= k < s ==> (#[trigger] r@[k])@ == accumulated_remaps(views, k),
            s > 0 ==> remaps@ == accumulated_remaps(views, s - 1),
            s == 0 ==> remaps@.len() == 0,
        decreases n - s,
    {
        let ghost before = remaps@;
        let set = &sets[s];
        let mut b: usize = 0;
        while b < set.len()
            invariant
                s < n,
                n == sets@.len(),
                views == sets@.map_values(|v: Vec<ReflectedBinding>| v@),
                remaps_ok(views),
                set@ == views[s as int],
                b <= set@.len(),
                remaps@ == before + set_remaps(s as int, set@).take(b as int),
            decreases set@.len() - b,
        {
            proof {
                assert(views[s as int][b as int] == set@[b as int]);
            }
            remaps.push(binding_remap(s as u32, n as u32, b as u32, set[b]));
            b += 1;
            assert(remaps@ =~= before + set_remaps(s as int, set@).take(b as int));
        }
        proof {
            assert(set_remaps(s as int, set@).take(b as int) =~= set_remaps(s as int, set@));
            if s == 0 {
                assert(remaps@ =~= accumulated_remaps(views, 0));
            } else {
                assert(remaps@ =~= accumulated_remaps(views, s as int));
            }
        }
        r.push(remaps.clone());
        proof {
            assert(r@[s as int]@ == remaps@);
        }
        s += 1;
    }
    r
}

// ---------------------------------------------------------------------
// Layout bindings of a shader

/// Descriptor types as reflected from a shader.
#[derive(Clone, Copy, Debug, PartialEq, Eq, Structural)]
pub enum ReflectDescriptorType {
    Undefined,
    Sampler,
    CombinedImageSampler,
    SampledImage,
    StorageImage,
    UniformTexelBuffer,
    StorageTexelBuffer,
    UniformBuffer,
    StorageBuffer,
    UniformBufferDynamic,
    StorageBufferDynamic,
    InputAttachment,
    AccelerationStructure,
}

/// Reflected descriptor types that have a Vulkan descriptor type.
pub open spec fn descriptor_type_supported(t: ReflectDescriptorType) -> bool {
    t != ReflectDescriptorType::Undefined && t != ReflectDescriptorType::AccelerationStructure
}

pub open spec fn spec_descriptor_type(t: ReflectDescriptorType) -> i32 {
    match t {
        ReflectDescriptorType::Sampler => vulkan::DESCRIPTOR_TYPE_SAMPLER,
        ReflectDescriptorType::CombinedImageSampler => vulkan::DESCRIPTOR_TYPE_COMBINED_IMAGE_SAMPLER,
        ReflectDescriptorType::SampledImage => vulkan::DESCRIPTOR_TYPE_SAMPLED_IMAGE,
        ReflectDescriptorType::StorageImage => vulkan::DESCRIPTOR_TYPE_STORAGE_IMAGE,
        ReflectDescriptorType::UniformTexelBuffer => vulkan::DESCRIPTOR_TYPE_UNIFORM_TEXEL_BUFFER,
        ReflectDescriptorType::StorageTexelBuffer => vulkan::DESCRIPTOR_TYPE_STORAGE_TEXEL_BUFFER,
        ReflectDescriptorType::UniformBuffer => vulkan::DESCRIPTOR_TYPE_UNIFORM_BUFFER,
        ReflectDescriptorType::StorageBuffer => vulkan::DESCRIPTOR_TYPE_STORAGE_BUFFER,
        ReflectDescriptorType::UniformBufferDynamic => vulkan::DESCRIPTOR_TYPE_UNIFORM_BUFFER_DYNAMIC,
        ReflectDescriptorType::StorageBufferDynamic => vulkan::DESCRIPTOR_TYPE_STORAGE_BUFFER_DYNAMIC,
        _ => vulkan::DESCRIPTOR_TYPE_INPUT_ATTACHMENT,
    }
}

/// What a descriptor type gives a shader: what it reaches (0 a sampler,
/// 1 a sampler with an image, 2 an image, 3 a texel buffer, 4 a buffer,
/// 5 an input attachment), whether the shader may write through it, and
/// whether its offset is dynamic.
pub open spec fn descriptor_traits(t: ReflectDescriptorType) -> (int, bool, bool) {
    match t {
        ReflectDescriptorType::Sampler => (0, false, false),
        ReflectDescriptorType::CombinedImageSampler => (1, false, false),
        ReflectDescriptorType::SampledImage => (2, false, false),
        ReflectDescriptorType::StorageImage => (2, true, false),
        ReflectDescriptorType::UniformTexelBuffer => (3, false, false),
        ReflectDescriptorType::StorageTexelBuffer => (3, true, false),
        ReflectDescriptorType::UniformBuffer => (4, false, false),
        ReflectDescriptorType::StorageBuffer => (4, true, false),
        ReflectDescriptorType::UniformBufferDynamic => (4, false, true),
        ReflectDescriptorType::StorageBufferDynamic => (4, true, true),
        ReflectDescriptorType::InputAttachment => (5, false, false),
        _ => (-1, false, false),
    }
}

/// What a Vulkan descriptor type gives a shader, as `descriptor_traits`
/// says it, by the numbers Vulkan gives its descriptor types.
pub open spec fn vk_descriptor_traits(t: int) -> Option<(int, bool, bool)> {
    if t == 0 { Some((0, false, false)) }
    else if t == 1 { Some((1, false, false)) }
    else if t == 2 { Some((2, false, false)) }
    else if t == 3 { Some((2, true, false)) }
    else if t == 4 { Some((3, false, false)) }
    else if t == 5 { Some((3, true, false)) }
    else if t == 6 { Some((4, false, false)) }
    else if t == 7 { Some((4, true, false)) }
    else if t == 8 { Some((4, false, true)) }
    else if t == 9 { Some((4, true, true)) }
    else if t == 10 { Some((5, false, false)) }
    else { None }
}

/// A reflected descriptor type becomes the Vulkan descriptor type that
/// gives the shader the same: the same kind of resource, written or only
/// read alike, with a dynamic offset alike.
pub proof fn lemma_descriptor_type_meaning(t: ReflectDescriptorType)
    requires
        descriptor_type_supported(t),
    ensures
        vk_descriptor_traits(spec_descriptor_type(t) as int) == Some(descriptor_traits(t)),
{
}

/// Vulkan descriptor type of a reflected descriptor type.
pub fn descriptor_type(t: ReflectDescriptorType) -> (r: i32)
    requires
        descriptor_type_supported(t),
    ensures
        r == spec_descriptor_type(t),
        vk_descriptor_traits(r as int) == Some(descriptor_traits(t)),
{
    proof {
        lemma_descriptor_type_meaning(t);
    }
    match t {
        ReflectDescriptorType::Sampler => vulkan::DESCRIPTOR_TYPE_SAMPLER,
        ReflectDescriptorType::CombinedImageSampler => vulkan::DESCRIPTOR_TYPE_COMBINED_IMAGE_SAMPLER,
        ReflectDescriptorType::SampledImage => vulkan::DESCRIPTOR_TYPE_SAMPLED_IMAGE,
        ReflectDescriptorType::StorageImage => vulkan::DESCRIPTOR_TYPE_STORAGE_IMAGE,
        ReflectDescriptorType::UniformTexelBuffer => vulkan::DESCRIPTOR_TYPE_UNIFORM_TEXEL_BUFFER,
        ReflectDescriptorType::StorageTexelBuffer => vulkan::DESCRIPTOR_TYPE_STORAGE_TEXEL_BUFFER,
        ReflectDescriptorType::UniformBuffer => vulkan::DESCRIPTOR_TYPE_UNIFORM_BUFFER,
        ReflectDescriptorType::StorageBuffer => vulkan::DESCRIPTOR_TYPE_STORAGE_BUFFER,
        ReflectDescriptorType::UniformBufferDynamic => vulkan::DESCRIPTOR_TYPE_UNIFORM_BUFFER_DYNAMIC,
        ReflectDescriptorType::StorageBufferDynamic => vulkan::DESCRIPTOR_TYPE_STORAGE_BUFFER_DYNAMIC,
        _ => vulkan::DESCRIPTOR_TYPE_INPUT_ATTACHMENT,
    }
}

/// Product of array dimensions (1 for a single descriptor).
pub open spec fn dims_product(dims: Seq<u32>) -> int
    decreases dims.len(),
{
    if dims.len() == 0 { 1 } else { dims_product(dims.drop_last()) * dims.last() }
}

/// Number of descriptors of an array binding: the product of its
/// dimensions.
pub fn descriptor_count(dims: &Vec<u32>) -> (r: u32)
    requires
        forall|k: int| 0 <= k <= dims@.len() ==> dims_product(#[trigger] dims@.take(k)) <= u32::MAX,
    ensures
        r == dims_product(dims@),
{
    let mut count: u32 = 1;
    let mut i: usize = 0;
    assert(dims@.take(0) =~= Seq::<u32>::empty());
    while i < dims.len()
        invariant
            i <= dims@.len(),
            forall|k: int| 0 <= k <= dims@.len() ==> dims_product(#[trigger] dims@.take(k)) <= u32::MAX,
            count == dims_product(dims@.take(i as int)),
        decreases dims@.len() - i,
    {
        proof {
            assert(dims@.take(i + 1).drop_last() =~= dims@.take(i as int));
            assert(dims_product(dims@.take(i + 1)) <= u32::MAX);
        }
        count = count * dims[i];
        i += 1;
    }
    assert(dims@.take(i as int) =~= dims@);
    count
}

/// Shader stage bits as reflected from a shader.
pub const REFLECT_STAGE_VERTEX: u32 = 0x1;
pub const REFLECT_STAGE_TESSELLATION_CONTROL: u32 = 0x2;
pub const REFLECT_STAGE_TESSELLATION_EVALUATION: u32 = 0x4;
pub const REFLECT_STAGE_GEOMETRY: u32 = 0x8;
pub const REFLECT_STAGE_FRAGMENT: u32 = 0x10;
pub const REFLECT_STAGE_COMPUTE: u32 = 0x20;

/// Vulkan stage flags of reflected stage bits: each stage the shader has.
pub open spec fn spec_stage_flags(stage: u32) -> u32 {
    (if stage & REFLECT_STAGE_VERTEX == REFLECT_STAGE_VERTEX { vulkan::SHADER_STAGE_VERTEX } else { 0u32 })
        | (if stage & REFLECT_STAGE_TESSELLATION_CONTROL == REFLECT_STAGE_TESSELLATION_CONTROL { vulkan::SHADER_STAGE_TESSELLATION_CONTROL } else { 0u32 })
        | (if stage & REFLECT_STAGE_TESSELLATION_EVALUATION == REFLECT_STAGE_TESSELLATION_EVALUATION { vulkan::SHADER_STAGE_TESSELLATION_EVALUATION } else { 0u32 })
        | (if stage & REFLECT_STAGE_GEOMETRY == REFLECT_STAGE_GEOMETRY { vulkan::SHADER_STAGE_GEOMETRY } else { 0u32 })
        | (if stage & REFLECT_STAGE_FRAGMENT == REFLECT_STAGE_FRAGMENT { vulkan::SHADER_STAGE_FRAGMENT } else { 0u32 })
        | (if stage & REFLECT_STAGE_COMPUTE == REFLECT_STAGE_COMPUTE { vulkan::SHADER_STAGE_COMPUTE } else { 0u32 })
}

proof fn lemma_stage_flag_bits(stage: u32)
    by (bit_vector)
    ensures
        (spec_stage_flags(stage) & 1u32 != 0) == (stage & 1u32 != 0),
        (spec_stage_flags(stage) & 2u32 != 0) == (stage & 2u32 != 0),
        (spec_stage_flags(stage) & 4u32 != 0) == (stage & 4u32 != 0),
        (spec_stage_flags(stage) & 8u32 != 0) == (stage & 8u32 != 0),
        (spec_stage_flags(stage) & 16u32 != 0) == (stage & 16u32 != 0),
        (spec_stage_flags(stage) & 32u32 != 0) == (stage & 32u32 != 0),
        spec_stage_flags(stage) < 64u32,
{
}

/// A binding is visible to exactly the Vulkan stages of the reflected
/// stages it was found in: vertex, tessellation control and evaluation,
/// geometry, fragment and compute each carry over, and no other stage is
/// named.
pub proof fn lemma_stage_flags_carry_over(stage: u32)
    ensures
        (spec_stage_flags(stage) & vulkan::SHADER_STAGE_VERTEX != 0) == (stage & REFLECT_STAGE_VERTEX != 0),
        (spec_stage_flags(stage) & vulkan::SHADER_STAGE_TESSELLATION_CONTROL != 0)
            == (stage & REFLECT_STAGE_TESSELLATION_CONTROL != 0),
        (spec_stage_flags(stage) & vulkan::SHADER_STAGE_TESSELLATION_EVALUATION != 0)
            == (stage & REFLECT_STAGE_TESSELLATION_EVALUATION != 0),
        (spec_stage_flags(stage) & vulkan::SHADER_STAGE_GEOMETRY != 0) == (stage & REFLECT_STAGE_GEOMETRY != 0),
        (spec_stage_flags(stage) & vulkan::SHADER_STAGE_FRAGMENT != 0) == (stage & REFLECT_STAGE_FRAGMENT != 0),
        (spec_stage_flags(stage) & vulkan::SHADER_STAGE_COMPUTE != 0) == (stage & REFLECT_STAGE_COMPUTE != 0),
        spec_stage_flags(stage) < 64,
{
    lemma_stage_flag_bits(stage);
}

pub fn stage_flags(stage: u32) -> (r: u32)
    ensures
        r == spec_stage_flags(stage),
        (r & vulkan::SHADER_STAGE_VERTEX != 0) == (stage & REFLECT_STAGE_VERTEX != 0),
        (r & vulkan::SHADER_STAGE_FRAGMENT != 0) == (stage & REFLECT_STAGE_FRAGMENT != 0),
        (r & vulkan::SHADER_STAGE_COMPUTE != 0) == (stage & REFLECT_STAGE_COMPUTE != 0),
{
    proof {
        lemma_stage_flags_carry_over(stage);
    }
    let v: u32 = if stage & REFLECT_STAGE_VERTEX == REFLECT_STAGE_VERTEX { vulkan::SHADER_STAGE_VERTEX } else { 0u32 };
    let tc: u32 = if stage & REFLECT_STAGE_TESSELLATION_CONTROL == REFLECT_STAGE_TESSELLATION_CONTROL { vulkan::SHADER_STAGE_TESSELLATION_CONTROL } else { 0u32 };
    let te: u32 = if stage & REFLECT_STAGE_TESSELLATION_EVALUATION == REFLECT_STAGE_TESSELLATION_EVALUATION { vulkan::SHADER_STAGE_TESSELLATION_EVALUATION } else { 0u32 };
    let g: u32 = if stage & REFLECT_STAGE_GEOMETRY == REFLECT_STAGE_GEOMETRY { vulkan::SHADER_STAGE_GEOMETRY } else { 0u32 };
    let f: u32 = if stage & REFLECT_STAGE_FRAGMENT == REFLECT_STAGE_FRAGMENT { vulkan::SHADER_STAGE_FRAGMENT } else { 0u32 };
    let c: u32 = if stage & REFLECT_STAGE_COMPUTE == REFLECT_STAGE_COMPUTE { vulkan::SHADER_STAGE_COMPUTE } else { 0u32 };
    v | tc | te | g | f | c
}

/// A descriptor binding as reflected from a shader (after its move).
#[derive(Clone, Debug)]
pub struct ReflectedDescriptor {
    pub binding: u32,
    pub descriptor_type: ReflectDescriptorType,
    pub dims: Vec<u32>,
}

/// Descriptors that can be laid out: a supported type and a count that fits.
pub open spec fn descriptor_ok(d: ReflectedDescriptor) -> bool {
    &&& descriptor_type_supported(d.descriptor_type)
    &&& forall|k: int| 0 <= k <= d.dims@.len() ==> dims_product(#[trigger] d.dims@.take(k)) <= u32::MAX
}

/// The layout binding of a reflected descriptor, used by the shader's stages.
pub open spec fn spec_layout_binding(d: ReflectedDescriptor, stage: u32) -> DescriptorSetLayoutBinding {
    DescriptorSetLayoutBinding {
        binding: d.binding,
        descriptor_type: spec_descriptor_type(d.descriptor_type),
        descriptor_count: dims_product(d.dims@) as u32,
        stage_flags: spec_stage_flags(stage),
        immutable_sampler: None,
    }
}

pub fn layout_binding(d: &ReflectedDescriptor, stage: u32) -> (r: DescriptorSetLayoutBinding)
    requires
        descriptor_ok(*d),
    ensures
        r == spec_layout_binding(*d, stage),
{
    DescriptorSetLayoutBinding {
        binding: d.binding,
        descriptor_type: descriptor_type(d.descriptor_type),
        descriptor_count: descriptor_count(&d.dims),
        stage_flags: stage_flags(stage),
        immutable_sampler: None,
    }
}

/// The layout bindings of one reflected set.
pub fn set_layout_bindings(descriptors: &Vec<ReflectedDescriptor>, stage: u32) -> (r: Vec<DescriptorSetLayoutBinding>)
    requires
        forall|i: int| 0 <= i < descriptors@.len() ==> descriptor_ok(#[trigger] descriptors@[i]),
    ensures
        r@ == Seq::new(descriptors@.len(), |i: int| spec_layout_binding(descriptors@[i], stage)),
{
    let mut r: Vec<DescriptorSetLayoutBinding> = Vec::new();
    let mut i: usize = 0;
    while i < descriptors.len()
        invariant
            i <= descriptors@.len(),
            forall|k: int| 0 <= k < descriptors@.len() ==> descriptor_ok(#[trigger] descriptors@[k]),
            r@ == Seq::new(i as nat, |k: int| spec_layout_binding(descriptors@[k], stage)),
        decreases descriptors@.len() - i,
    {
        r.push(layout_binding(&descriptors[i], stage));
        i += 1;
        assert(r@ =~= Seq::new(i as nat, |k: int| spec_layout_binding(descriptors@[k], stage)));
    }
    r
}


// ---------------------------------------------------------------------
// Checking what a shader declares

/// Whether a binding of set `set_index` (of `set_count` sets) can be moved.
pub fn binding_remap_supported(set_index: usize, set_count: usize, b: ReflectedBinding) -> (r: bool)
    ensures
        r == remap_ok(set_index as int, set_count as int, b),
{
    let max = u32::MAX as u64;
    if set_index as u64 > max - SET_OFFSET as u64 || b.binding as u64 + UAV_OFFSET as u64 > max {
        return false;
    }
    match b.resource_type {
        ReflectResourceType::ConstantBufferView => b.binding == 0 && SET_OFFSET as u64 + set_index as u64 >= set_count as u64
            && b.binding as u64 + CBV_OFFSET as u64 + set_index as u64 <= max,
        ReflectResourceType::ShaderResourceView => true,
        ReflectResourceType::Sampler => true,
        ReflectResourceType::UnorderedAccessView => true,
        _ => false,
    }
}

/// The binding positions the moves up to set `s` name lie below `bound`
/// exactly when no set up to `s` has more than `bound` bindings.
pub proof fn lemma_accumulated_positions(sets: Seq<Seq<ReflectedBinding>>, s: int, bound: int)
    requires
        0 <= s < sets.len(),
        bound >= 0,
        forall|j: int| 0 <= j <= s ==> (#[trigger] sets[j]).len() <= u32::MAX,
    ensures
        (forall|i: int| 0 <= i < accumulated_remaps(sets, s).len() ==> (#[trigger] accumulated_remaps(sets, s)[i]).binding_index < bound)
            <==> (forall|j: int| 0 <= j <= s ==> (#[trigger] sets[j]).len() <= bound),
    decreases s,
{
    let own = set_remaps(s, sets[s]);
    assert(sets[s].len() <= u32::MAX);
    assert forall|i: int| 0 <= i < own.len() implies (#[trigger] own[i]).binding_index == i by {}
    let own_ok = forall|i: int| 0 <= i < own.len() ==> (#[trigger] own[i]).binding_index < bound;
    assert(own_ok <==> sets[s].len() <= bound) by {
        if sets[s].len() > bound {
            let i = sets[s].len() - 1;
            assert(own[i].binding_index == i);
        }
    }
    let acc = accumulated_remaps(sets, s);
    if s == 0 {
        assert(acc == own);
        assert((forall|j: int| 0 <= j <= 0 ==> (#[trigger] sets[j]).len() <= bound) <==> sets[0].len() <= bound);
    } else {
        lemma_accumulated_positions(sets, s - 1, bound);
        let prev = accumulated_remaps(sets, s - 1);
        assert(acc == prev + own);
        let prev_ok = forall|i: int| 0 <= i < prev.len() ==> (#[trigger] prev[i]).binding_index < bound;
        let acc_ok = forall|i: int| 0 <= i < acc.len() ==> (#[trigger] acc[i]).binding_index < bound;
        assert(acc_ok <==> (prev_ok && own_ok)) by {
            if prev_ok && own_ok {
                assert forall|i: int| 0 <= i < acc.len() implies (#[trigger] acc[i]).binding_index < bound by {
                    if i < prev.len() {
                        assert(acc[i] == prev[i]);
                    } else {
                        assert(acc[i] == own[i - prev.len()]);
                    }
                }
            }
            if acc_ok {
                assert forall|i: int| 0 <= i < prev.len() implies (#[trigger] prev[i]).binding_index < bound by {
                    assert(acc[i] == prev[i]);
                }
                assert forall|i: int| 0 <= i < own.len() implies (#[trigger] own[i]).binding_index < bound by {
                    assert(acc[prev.len() + i] == own[i]);
                }
            }
        }
        let prev_b = forall|j: int| 0 <= j <= s - 1 ==> (#[trigger] sets[j]).len() <= bound;
        let acc_b = forall|j: int| 0 <= j <= s ==> (#[trigger] sets[j]).len() <= bound;
        assert(acc_b <==> (prev_b && sets[s].len() <= bound)) by {
            if prev_b && sets[s].len() <= bound {
                assert forall|j: int| 0 <= j <= s implies (#[trigger] sets[j]).len() <= bound by {
                    if j < s {
                        assert(0 <= j <= s - 1);
                    }
                }
            }
        }
    }
}

/// Whether every binding of a shader can be moved and every move applied
/// to a set names a binding position that set has.
pub fn remaps_supported(sets: &Vec<Vec<ReflectedBinding>>) -> (r: bool)
    ensures
        r == remaps_ok(sets@.map_values(|s: Vec<ReflectedBinding>| s@)),
{
    let ghost views = sets@.map_values(|s: Vec<ReflectedBinding>| s@);
    let n = sets.len();
    if n as u64 > u32::MAX as u64 {
        return false;
    }
    let mut s: usize = 0;
    while s < n
        invariant
            n == sets@.len(),
            n <= u32::MAX,
            views == sets@.map_values(|v: Vec<ReflectedBinding>| v@),
            s <= n,
            forall|a: int, i: int| 0 <= a < s && 0 <= i < views[a].len() ==> remap_ok(a, n as int, #[trigger] views[a][i]),
            forall|a: int, j: int| 0 <= j <= a < s ==> (#[trigger] views[j]).len() <= #[trigger] views[a].len(),
            forall|a: int| 0 <= a < s ==> (#[trigger] views[a]).len() <= u32::MAX,
        decreases n - s,
    {
        let set = &sets[s];
        assert(set@ == views[s as int]);
        if set.len() as u64 > u32::MAX as u64 {
            assert(!remaps_ok(views));
            return false;
        }
        let mut i: usize = 0;
        while i < set.len()
            invariant
                n == sets@.len(),
                n <= u32::MAX,
                s < n,
                views == sets@.map_values(|v: Vec<ReflectedBinding>| v@),
                set@ == views[s as int],
                i <= set@.len(),
                forall|k: int| 0 <= k < i ==> remap_ok(s as int, n as int, #[trigger] views[s as int][k]),
            decreases set@.len() - i,
        {
            if !binding_remap_supported(s, n, set[i]) {
                proof {
                    assert(!remap_ok(s as int, n as int, views[s as int][i as int]));
                    assert(!remaps_ok(views));
                }
                return false;
            }
            i += 1;
        }
        let mut j: usize = 0;
        while j <= s
            invariant
                n == sets@.len(),
                s < n,
                j <= s + 1,
                views == sets@.map_values(|v: Vec<ReflectedBinding>| v@),
                forall|a: int| 0 <= a <= s ==> (#[trigger] views[a]).len() <= u32::MAX,
                forall|k: int| 0 <= k < j ==> (#[trigger] views[k]).len() <= views[s as int].len(),
            decreases s + 1 - j,
        {
            if sets[j].len() > sets[s].len() {
                proof {
                    assert(views[j as int].len() > views[s as int].len());
                    lemma_accumulated_positions(views, s as int, views[s as int].len() as int);
                    assert(!remaps_ok(views));
                }
                return false;
            }
            j += 1;
        }
        s += 1;
    }
    proof {
        assert forall|a: int, i: int| 0 <= a < views.len() && 0 <= i < accumulated_remaps(views, a).len()
            implies (#[trigger] accumulated_remaps(views, a)[i]).binding_index < views[a].len() by {
            lemma_accumulated_positions(views, a, views[a].len() as int);
            assert forall|j: int| 0 <= j <= a implies (#[trigger] views[j]).len() <= views[a].len() by {
                assert(views[j].len() <= views[a].len());
            }
        }
    }
    true
}

/// The moves of a shader's bindings, or `None` when a binding cannot be
/// moved or a move names a binding position its set lacks.
pub fn checked_binding_remaps(sets: &Vec<Vec<ReflectedBinding>>) -> (r: Option<Vec<Vec<BindingSetRemap>>>)
    ensures
        r is None <==> !remaps_ok(sets@.map_values(|s: Vec<ReflectedBinding>| s@)),
        r matches Some(p) ==> p@.len() == sets@.len() && forall|k: int| 0 <= k < sets@.len()
            ==> (#[trigger] p@[k])@ == accumulated_remaps(sets@.map_values(|s: Vec<ReflectedBinding>| s@), k),
{
    if remaps_supported(sets) {
        Some(plan_binding_remaps(sets))
    } else {
        None
    }
}

/// Whether a reflected descriptor can be laid out.
pub fn descriptor_supported(d: &ReflectedDescriptor) -> (r: bool)
    ensures
        r == descriptor_ok(*d),
{
    let supported = match d.descriptor_type {
        ReflectDescriptorType::Undefined | ReflectDescriptorType::AccelerationStructure => false,
        _ => true,
    };
    if !supported {
        return false;
    }
    let mut product: u64 = 1;
    let mut i: usize = 0;
    assert(d.dims@.take(0) =~= Seq::<u32>::empty());
    while i < d.dims.len()
        invariant
            i <= d.dims@.len(),
            product == dims_product(d.dims@.take(i as int)),
            product <= u32::MAX,
            forall|k: int| 0 <= k <= i ==> dims_product(#[trigger] d.dims@.take(k)) <= u32::MAX,
        decreases d.dims@.len() - i,
    {
        let dim = d.dims[i];
        assert(d.dims@.take(i + 1).drop_last() =~= d.dims@.take(i as int));
        assert(product * dim <= u64::MAX) by (nonlinear_arith)
            requires product <= u32::MAX, dim <= u32::MAX;
        let next = product * dim as u64;
        if next > u32::MAX as u64 {
            assert(dims_product(d.dims@.take(i + 1)) > u32::MAX);
            return false;
        }
        product = next;
        i += 1;
    }
    assert(d.dims@.take(i as int) =~= d.dims@);
    true
}

/// The layout bindings of each reflected set, with its set number, or
/// `None` when a descriptor cannot be laid out.
pub fn shader_set_layouts(sets: &Vec<(u32, Vec<ReflectedDescriptor>)>, stage: u32) -> (r: Option<Vec<(u32, Vec<DescriptorSetLayoutBinding>)>>)
    ensures
        r is None <==> exists|j: int, i: int| 0 <= j < sets@.len() && 0 <= i < sets@[j].1@.len()
            && !descriptor_ok(#[trigger] sets@[j].1@[i]),
        r matches Some(l) ==> l@.len() == sets@.len() && forall|j: int| 0 <= j < sets@.len() ==> {
            &&& (#[trigger] l@[j]).0 == sets@[j].0
            &&& l@[j].1@ == Seq::new(sets@[j].1@.len(), |i: int| spec_layout_binding(sets@[j].1@[i], stage))
        },
{
    let mut r: Vec<(u32, Vec<DescriptorSetLayoutBinding>)> = Vec::new();
    let mut j: usize = 0;
    while j < sets.len()
        invariant
            j <= sets@.len(),
            r@.len() == j,
            forall|a: int, i: int| 0 <= a < j && 0 <= i < sets@[a].1@.len() ==> descriptor_ok(#[trigger] sets@[a].1@[i]),
            forall|a: int| 0 <= a < j ==> {
                &&& (#[trigger] r@[a]).0 == sets@[a].0
                &&& r@[a].1@ == Seq::new(sets@[a].1@.len(), |i: int| spec_layout_binding(sets@[a].1@[i], stage))
            },
        decreases sets@.len() - j,
    {
        let descriptors = &sets[j].1;
        let mut i: usize = 0;
        while i < descriptors.len()
            invariant
                j < sets@.len(),
                descriptors@ == sets@[j as int].1@,
                i <= descriptors@.len(),
                forall|k: int| 0 <= k < i ==> descriptor_ok(#[trigger] descriptors@[k]),
            decreases descriptors@.len() - i,
        {
            if !descriptor_supported(&descriptors[i]) {
                assert(!descriptor_ok(sets@[j as int].1@[i as int]));
                return None;
            }
            i += 1;
        }
        let bindings = set_layout_bindings(descriptors, stage);
        r.push((sets[j].0, bindings));
        j += 1;
    }
    Some(r)
}
} // verus!
