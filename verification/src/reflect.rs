//! What a shader's reflection is turned into: the bindings a SPIR-V module
//! declares are decoded and moved into the ranges of the pipeline layout,
//! giving the changes to make to the module's code, and the bindings read
//! back from the patched module give the layout bindings of each set.
//! Parsing and patching the code is the reflection library's work, done by
//! the caller; only plain values cross over.

use vstd::prelude::*;
use crate::types::DescriptorSetLayoutBinding;
use crate::shader::ReflectResourceType;
use crate::shader::ReflectDescriptorType;
use crate::shader::ReflectedBinding;
use crate::shader::ReflectedDescriptor;
use crate::shader::BindingSetRemap;
use crate::shader::remaps_ok;
use crate::shader::accumulated_remaps;
use crate::shader::descriptor_ok;
use crate::shader::descriptor_type_supported;
use crate::shader::dims_product;
use crate::shader::spec_descriptor_type;
use crate::shader::descriptor_traits;
use crate::shader::vk_descriptor_traits;
use crate::shader::spec_stage_flags;
use crate::shader::spec_layout_binding;
use crate::shader::checked_binding_remaps;
use crate::shader::shader_set_layouts;

verus! {

/// The resource kind at a position of the declaration of the reflected
/// resource kinds.
pub open spec fn spec_resource_type_of(code: u32) -> Option<ReflectResourceType> {
    if code == 0 {
        Some(ReflectResourceType::Undefined)
    } else if code == 1 {
        Some(ReflectResourceType::Sampler)
    } else if code == 2 {
        Some(ReflectResourceType::CombinedImageSampler)
    } else if code == 3 {
        Some(ReflectResourceType::ConstantBufferView)
    } else if code == 4 {
        Some(ReflectResourceType::ShaderResourceView)
    } else if code == 5 {
        Some(ReflectResourceType::UnorderedAccessView)
    } else {
        None
    }
}

pub fn resource_type_of(code: u32) -> (r: Option<ReflectResourceType>)
    ensures
        r == spec_resource_type_of(code),
{
    if code == 0 {
        Some(ReflectResourceType::Undefined)
    } else if code == 1 {
        Some(ReflectResourceType::Sampler)
    } else if code == 2 {
        Some(ReflectResourceType::CombinedImageSampler)
    } else if code == 3 {
        Some(ReflectResourceType::ConstantBufferView)
    } else if code == 4 {
        Some(ReflectResourceType::ShaderResourceView)
    } else if code == 5 {
        Some(ReflectResourceType::UnorderedAccessView)
    } else {
        None
    }
}

/// The descriptor type at a position of the declaration of the reflected
/// descriptor types.
pub open spec fn spec_descriptor_type_of(code: u32) -> Option<ReflectDescriptorType> {
    if code == 0 {
        Some(ReflectDescriptorType::Undefined)
    } else if code == 1 {
        Some(ReflectDescriptorType::Sampler)
    } else if code == 2 {
        Some(ReflectDescriptorType::CombinedImageSampler)
    } else if code == 3 {
        Some(ReflectDescriptorType::SampledImage)
    } else if code == 4 {
        Some(ReflectDescriptorType::StorageImage)
    } else if code == 5 {
        Some(ReflectDescriptorType::UniformTexelBuffer)
    } else if code == 6 {
        Some(ReflectDescriptorType::StorageTexelBuffer)
    } else if code == 7 {
        Some(ReflectDescriptorType::UniformBuffer)
    } else if code == 8 {
        Some(ReflectDescriptorType::StorageBuffer)
    } else if code == 9 {
        Some(ReflectDescriptorType::UniformBufferDynamic)
    } else if code == 10 {
        Some(ReflectDescriptorType::StorageBufferDynamic)
    } else if code == 11 {
        Some(ReflectDescriptorType::InputAttachment)
    } else if code == 12 {
        Some(ReflectDescriptorType::AccelerationStructure)
    } else {
        None
    }
}

/// The reflected descriptor types are declared in Vulkan's order after an
/// undefined one: the type at each position from the first to the eleventh
/// is the one Vulkan numbers one lower, and gives the shader the same as
/// that Vulkan type; the positions before and after are the types that
/// cannot be laid out, and no type follows them.
pub proof fn lemma_descriptor_codes_follow_vulkan(code: u32)
    ensures
        1 <= code <= 11 ==> (spec_descriptor_type_of(code) matches Some(t) && {
            &&& descriptor_type_supported(t)
            &&& spec_descriptor_type(t) == code - 1
            &&& vk_descriptor_traits(code - 1) == Some(descriptor_traits(t))
        }),
        code == 0 || code == 12 ==> (spec_descriptor_type_of(code) matches Some(t) && !descriptor_type_supported(t)),
        code > 12 ==> spec_descriptor_type_of(code) is None,
{
}

pub fn descriptor_type_of(code: u32) -> (r: Option<ReflectDescriptorType>)
    ensures
        r == spec_descriptor_type_of(code),
        1 <= code <= 11 ==> (r matches Some(t) && spec_descriptor_type(t) == code - 1),
        code > 12 ==> r is None,
{
    proof {
        lemma_descriptor_codes_follow_vulkan(code);
    }
    if code == 0 {
        Some(ReflectDescriptorType::Undefined)
    } else if code == 1 {
        Some(ReflectDescriptorType::Sampler)
    } else if code == 2 {
        Some(ReflectDescriptorType::CombinedImageSampler)
    } else if code == 3 {
        Some(ReflectDescriptorType::SampledImage)
    } else if code == 4 {
        Some(ReflectDescriptorType::StorageImage)
    } else if code == 5 {
        Some(ReflectDescriptorType::UniformTexelBuffer)
    } else if code == 6 {
        Some(ReflectDescriptorType::StorageTexelBuffer)
    } else if code == 7 {
        Some(ReflectDescriptorType::UniformBuffer)
    } else if code == 8 {
        Some(ReflectDescriptorType::StorageBuffer)
    } else if code == 9 {
        Some(ReflectDescriptorType::UniformBufferDynamic)
    } else if code == 10 {
        Some(ReflectDescriptorType::StorageBufferDynamic)
    } else if code == 11 {
        Some(ReflectDescriptorType::InputAttachment)
    } else if code == 12 {
        Some(ReflectDescriptorType::AccelerationStructure)
    } else {
        None
    }
}

/// One change of a binding's numbers: which set (by position) and which of
/// its bindings, and the new binding number and set.
#[derive(Clone, Copy, Debug, PartialEq, Eq, Structural)]
pub struct ShaderPatch {
    pub set_position: usize,
    pub binding_index: u32,
    pub new_binding: u32,
    pub new_set: u32,
}

/// The changes made to set `k` for its moves.
pub open spec fn set_patches(k: int, remaps: Seq<BindingSetRemap>) -> Seq<ShaderPatch> {
    remaps.map_values(|r: BindingSetRemap| ShaderPatch {
        set_position: k as usize,
        binding_index: r.binding_index,
        new_binding: r.new_binding,
        new_set: r.new_set,
    })
}

/// All changes, set by set, each set's moves in order.
pub open spec fn spec_patches(remaps: Seq<Seq<BindingSetRemap>>) -> Seq<ShaderPatch>
    decreases remaps.len(),
{
    if remaps.len() == 0 {
        Seq::empty()
    } else {
        spec_patches(remaps.drop_last()) + set_patches(remaps.len() - 1, remaps.last())
    }
}

/// Views of per-set binding lists.
pub open spec fn binding_views(sets: Seq<Vec<ReflectedBinding>>) -> Seq<Seq<ReflectedBinding>> {
    sets.map_values(|s: Vec<ReflectedBinding>| s@)
}

/// Views of per-set move lists.
pub open spec fn remap_views(remaps: Seq<Vec<BindingSetRemap>>) -> Seq<Seq<BindingSetRemap>> {
    remaps.map_values(|s: Vec<BindingSetRemap>| s@)
}

/// A binding as a module declares it: its binding number and the code of
/// its resource kind (see `spec_resource_type_of`).
#[derive(Clone, Copy, Debug, PartialEq, Eq, Structural)]
pub struct DeclaredBinding {
    pub binding: u32,
    pub resource_code: u32,
}

/// The binding a declared binding stands for, if its resource kind is known.
pub open spec fn spec_decode_binding(d: DeclaredBinding) -> Option<ReflectedBinding> {
    match spec_resource_type_of(d.resource_code) {
        Some(t) => Some(ReflectedBinding { binding: d.binding, resource_type: t }),
        None => None,
    }
}

/// The bindings that the declared bindings stand for, set by set, or
/// `None` when one of them has a resource kind that is not known.
pub fn decode_declared(sets: &Vec<Vec<DeclaredBinding>>) -> (r: Option<Vec<Vec<ReflectedBinding>>>)
    ensures
        r is None <==> exists|k: int, i: int| 0 <= k < sets@.len() && 0 <= i < sets@[k]@.len()
            && (#[trigger] spec_decode_binding(sets@[k]@[i])) is None,
        r matches Some(b) ==> b@.len() == sets@.len() && forall|k: int| 0 <= k < sets@.len() ==> {
            &&& (#[trigger] b@[k])@.len() == sets@[k]@.len()
            &&& forall|i: int| 0 <= i < sets@[k]@.len() ==> Some(#[trigger] b@[k]@[i]) == spec_decode_binding(sets@[k]@[i])
        },
{
    let mut out: Vec<Vec<ReflectedBinding>> = Vec::new();
    let mut k: usize = 0;
    while k < sets.len()
        invariant
            k <= sets@.len(),
            out@.len() == k,
            forall|a: int, i: int| 0 <= a < k && 0 <= i < sets@[a]@.len() ==> (#[trigger] spec_decode_binding(sets@[a]@[i])) is Some,
            forall|a: int| 0 <= a < k ==> {
                &&& (#[trigger] out@[a])@.len() == sets@[a]@.len()
                &&& forall|i: int| 0 <= i < sets@[a]@.len() ==> Some(#[trigger] out@[a]@[i]) == spec_decode_binding(sets@[a]@[i])
            },
        decreases sets@.len() - k,
    {
        let set = &sets[k];
        let mut decoded: Vec<ReflectedBinding> = Vec::new();
        let mut i: usize = 0;
        while i < set.len()
            invariant
                k < sets@.len(),
                set@ == sets@[k as int]@,
                i <= set@.len(),
                decoded@.len() == i,
                forall|j: int| 0 <= j < i ==> Some(#[trigger] decoded@[j]) == spec_decode_binding(set@[j]),
            decreases set@.len() - i,
        {
            let d = set[i];
            match resource_type_of(d.resource_code) {
                Some(t) => decoded.push(ReflectedBinding { binding: d.binding, resource_type: t }),
                None => {
                    assert(spec_decode_binding(sets@[k as int]@[i as int]) is None);
                    return None;
                },
            }
            i += 1;
        }
        assert forall|i: int| 0 <= i < sets@[k as int]@.len() implies (#[trigger] spec_decode_binding(sets@[k as int]@[i])) is Some by {
            assert(Some(decoded@[i]) == spec_decode_binding(set@[i]));
        }
        out.push(decoded);
        k += 1;
    }
    Some(out)
}

/// A binding of a patched module: its binding number, the code of its
/// descriptor type (see `spec_descriptor_type_of`) and its array dimensions.
#[derive(Clone, Debug)]
pub struct PatchedBinding {
    pub binding: u32,
    pub descriptor_code: u32,
    pub dims: Vec<u32>,
}

/// A copy of a list of array dimensions.
fn copy_dims(dims: &Vec<u32>) -> (r: Vec<u32>)
    ensures
        r@ == dims@,
{
    let mut r: Vec<u32> = Vec::new();
    let mut i: usize = 0;
    while i < dims.len()
        invariant
            i <= dims@.len(),
            r@ == dims@.take(i as int),
        decreases dims@.len() - i,
    {
        r.push(dims[i]);
        i += 1;
        assert(r@ =~= dims@.take(i as int));
    }
    assert(dims@.take(i as int) =~= dims@);
    r
}

/// The descriptor a patched binding stands for matches it: same binding
/// number and dimensions, and the descriptor type its code names.
pub open spec fn decodes_to(p: PatchedBinding, d: ReflectedDescriptor) -> bool {
    &&& spec_descriptor_type_of(p.descriptor_code) == Some(d.descriptor_type)
    &&& d.binding == p.binding
    &&& d.dims@ == p.dims@
}

/// The descriptors that the patched bindings stand for, set by set with the
/// set's number, or `None` when one of them has a descriptor type that is
/// not known.
pub fn decode_patched(sets: &Vec<(u32, Vec<PatchedBinding>)>) -> (r: Option<Vec<(u32, Vec<ReflectedDescriptor>)>>)
    ensures
        r is None <==> exists|k: int, i: int| 0 <= k < sets@.len() && 0 <= i < sets@[k].1@.len()
            && (#[trigger] spec_descriptor_type_of(sets@[k].1@[i].descriptor_code)) is None,
        r matches Some(d) ==> d@.len() == sets@.len() && forall|k: int| 0 <= k < sets@.len() ==> {
            &&& (#[trigger] d@[k]).0 == sets@[k].0
            &&& d@[k].1@.len() == sets@[k].1@.len()
            &&& forall|i: int| 0 <= i < sets@[k].1@.len() ==> decodes_to(sets@[k].1@[i], #[trigger] d@[k].1@[i])
        },
{
    let mut out: Vec<(u32, Vec<ReflectedDescriptor>)> = Vec::new();
    let mut k: usize = 0;
    while k < sets.len()
        invariant
            k <= sets@.len(),
            out@.len() == k,
            forall|a: int, i: int| 0 <= a < k && 0 <= i < sets@[a].1@.len()
                ==> (#[trigger] spec_descriptor_type_of(sets@[a].1@[i].descriptor_code)) is Some,
            forall|a: int| 0 <= a < k ==> {
                &&& (#[trigger] out@[a]).0 == sets@[a].0
                &&& out@[a].1@.len() == sets@[a].1@.len()
                &&& forall|i: int| 0 <= i < sets@[a].1@.len() ==> decodes_to(sets@[a].1@[i], #[trigger] out@[a].1@[i])
            },
        decreases sets@.len() - k,
    {
        let set = &sets[k].1;
        let mut decoded: Vec<ReflectedDescriptor> = Vec::new();
        let mut i: usize = 0;
        while i < set.len()
            invariant
                k < sets@.len(),
                set@ == sets@[k as int].1@,
                i <= set@.len(),
                decoded@.len() == i,
                forall|j: int| 0 <= j < i ==> decodes_to(set@[j], #[trigger] decoded@[j]),
            decreases set@.len() - i,
        {
            let p = &set[i];
            match descriptor_type_of(p.descriptor_code) {
                Some(t) => decoded.push(ReflectedDescriptor { binding: p.binding, descriptor_type: t, dims: copy_dims(&p.dims) }),
                None => {
                    assert(spec_descriptor_type_of(sets@[k as int].1@[i as int].descriptor_code) is None);
                    return None;
                },
            }
            i += 1;
        }
        assert forall|i: int| 0 <= i < sets@[k as int].1@.len()
            implies (#[trigger] spec_descriptor_type_of(sets@[k as int].1@[i].descriptor_code)) is Some by {
            assert(decodes_to(set@[i], decoded@[i]));
        }
        out.push((sets[k].0, decoded));
        k += 1;
    }
    Some(out)
}

/// Every declared binding has a resource kind that is known.
pub open spec fn declared_decodes(sets: Seq<Vec<DeclaredBinding>>) -> bool {
    forall|k: int, i: int| 0 <= k < sets.len() && 0 <= i < sets[k]@.len()
        ==> (#[trigger] spec_decode_binding(sets[k]@[i])) is Some
}

/// The bindings that the declared bindings stand for, set by set.
pub open spec fn decoded_views(sets: Seq<Vec<DeclaredBinding>>) -> Seq<Seq<ReflectedBinding>> {
    sets.map_values(|s: Vec<DeclaredBinding>| s@.map_values(|d: DeclaredBinding| spec_decode_binding(d)->0))
}

/// What is to be done with a shader's declared bindings: the bindings
/// they stand for, the moves of each set, and the changes to make to the
/// module's code for them, set by set and in order.
pub struct ShaderMoves {
    pub bindings: Vec<Vec<ReflectedBinding>>,
    pub remaps: Vec<Vec<BindingSetRemap>>,
    pub patches: Vec<ShaderPatch>,
}

/// Plan the moves of a shader's declared bindings into the backend's
/// binding ranges (see `checked_binding_remaps`). `None` when a binding has
/// a resource kind that is not known or cannot be moved.
pub fn plan_shader_moves(declared: &Vec<Vec<DeclaredBinding>>) -> (r: Option<ShaderMoves>)
    ensures
        r is Some <==> declared_decodes(declared@) && remaps_ok(decoded_views(declared@)),
        r matches Some(m) ==> {
            &&& binding_views(m.bindings@) == decoded_views(declared@)
            &&& m.remaps@.len() == declared@.len()
            &&& forall|k: int| 0 <= k < declared@.len()
                ==> (#[trigger] m.remaps@[k])@ == accumulated_remaps(decoded_views(declared@), k)
            &&& m.patches@ == spec_patches(remap_views(m.remaps@))
        },
{
    let bindings = match decode_declared(declared) {
        Some(b) => b,
        None => {
            proof {
                let (k, i) = choose|k: int, i: int| 0 <= k < declared@.len() && 0 <= i < declared@[k]@.len()
                    && (#[trigger] spec_decode_binding(declared@[k]@[i])) is None;
                assert(spec_decode_binding(declared@[k]@[i]) is None);
            }
            return None;
        },
    };
    proof {
        assert forall|k: int, i: int| 0 <= k < declared@.len() && 0 <= i < declared@[k]@.len()
            implies (#[trigger] spec_decode_binding(declared@[k]@[i])) is Some by {
            assert(Some(bindings@[k]@[i]) == spec_decode_binding(declared@[k]@[i]));
        }
        assert forall|k: int| 0 <= k < declared@.len()
            implies (#[trigger] binding_views(bindings@)[k]) == decoded_views(declared@)[k] by {
            assert forall|i: int| 0 <= i < declared@[k]@.len()
                implies bindings@[k]@[i] == spec_decode_binding(declared@[k]@[i])->0 by {
                assert(Some(bindings@[k]@[i]) == spec_decode_binding(declared@[k]@[i]));
            }
            assert(bindings@[k]@ =~= declared@[k]@.map_values(|d: DeclaredBinding| spec_decode_binding(d)->0));
        }
        assert(binding_views(bindings@) =~= decoded_views(declared@));
        assert(bindings@.map_values(|s: Vec<ReflectedBinding>| s@) =~= binding_views(bindings@));
    }
    let remaps = match checked_binding_remaps(&bindings) {
        Some(p) => p,
        None => return None,
    };
    let patches = patches_of(&remaps);
    Some(ShaderMoves { bindings, remaps, patches })
}

/// The changes that the moves make, set by set, each set's moves in order.
pub fn patches_of(remaps: &Vec<Vec<BindingSetRemap>>) -> (r: Vec<ShaderPatch>)
    ensures
        r@ == spec_patches(remap_views(remaps@)),
{
    let mut patches: Vec<ShaderPatch> = Vec::new();
    let mut k: usize = 0;
    while k < remaps.len()
        invariant
            k <= remaps@.len(),
            patches@ == spec_patches(remap_views(remaps@.take(k as int))),
        decreases remaps@.len() - k,
    {
        let set_remaps = &remaps[k];
        let ghost before = patches@;
        let mut i: usize = 0;
        while i < set_remaps.len()
            invariant
                k < remaps@.len(),
                set_remaps@ == remaps@[k as int]@,
                i <= set_remaps@.len(),
                patches@ == before + set_patches(k as int, set_remaps@.take(i as int)),
            decreases set_remaps@.len() - i,
        {
            let remap = set_remaps[i];
            patches.push(ShaderPatch {
                set_position: k,
                binding_index: remap.binding_index,
                new_binding: remap.new_binding,
                new_set: remap.new_set,
            });
            i += 1;
            assert(patches@ =~= before + set_patches(k as int, set_remaps@.take(i as int)));
        }
        proof {
            let next = remap_views(remaps@.take(k + 1));
            assert(next.drop_last() =~= remap_views(remaps@.take(k as int)));
            assert(next.last() == set_remaps@);
            assert(set_remaps@.take(i as int) =~= set_remaps@);
        }
        k += 1;
    }
    assert(remaps@.take(k as int) =~= remaps@);
    patches
}

/// A patched binding whose descriptor type is known and whose descriptor
/// can be laid out.
pub open spec fn patched_ok(p: PatchedBinding) -> bool {
    &&& spec_descriptor_type_of(p.descriptor_code) is Some
    &&& descriptor_type_supported(spec_descriptor_type_of(p.descriptor_code)->0)
    &&& forall|k: int| 0 <= k <= p.dims@.len() ==> dims_product(#[trigger] p.dims@.take(k)) <= u32::MAX
}

/// The layout binding of a patched binding, used by the shader's stages.
pub open spec fn spec_patched_layout_binding(p: PatchedBinding, stage: u32) -> DescriptorSetLayoutBinding {
    DescriptorSetLayoutBinding {
        binding: p.binding,
        descriptor_type: spec_descriptor_type(spec_descriptor_type_of(p.descriptor_code)->0),
        descriptor_count: dims_product(p.dims@) as u32,
        stage_flags: spec_stage_flags(stage),
        immutable_sampler: None,
    }
}

/// The descriptors of a patched module and the layout bindings of each of
/// its sets, with the set's number, for the shader's stages. `None` when a
/// binding has a descriptor type that is not known or cannot be laid out.
pub fn shader_layouts_of(patched: &Vec<(u32, Vec<PatchedBinding>)>, stage: u32) -> (r: Option<(Vec<(u32, Vec<ReflectedDescriptor>)>, Vec<(u32, Vec<DescriptorSetLayoutBinding>)>)>)
    ensures
        r is Some <==> forall|k: int, i: int| 0 <= k < patched@.len() && 0 <= i < patched@[k].1@.len()
            ==> patched_ok(#[trigger] patched@[k].1@[i]),
        r matches Some((d, l)) ==> {
            &&& d@.len() == patched@.len()
            &&& l@.len() == patched@.len()
            &&& forall|k: int| 0 <= k < patched@.len() ==> {
                &&& (#[trigger] d@[k]).0 == patched@[k].0
                &&& d@[k].1@.len() == patched@[k].1@.len()
                &&& (forall|i: int| 0 <= i < patched@[k].1@.len() ==> decodes_to(patched@[k].1@[i], #[trigger] d@[k].1@[i]))
                &&& l@[k].0 == patched@[k].0
                &&& l@[k].1@ == Seq::new(patched@[k].1@.len(), |i: int| spec_patched_layout_binding(patched@[k].1@[i], stage))
            }
        },
{
    let descriptors = match decode_patched(patched) {
        Some(d) => d,
        None => {
            proof {
                let (k, i) = choose|k: int, i: int| 0 <= k < patched@.len() && 0 <= i < patched@[k].1@.len()
                    && (#[trigger] spec_descriptor_type_of(patched@[k].1@[i].descriptor_code)) is None;
                assert(!patched_ok(patched@[k].1@[i]));
            }
            return None;
        },
    };
    let set_layouts = match shader_set_layouts(&descriptors, stage) {
        Some(l) => l,
        None => {
            proof {
                let (j, i) = choose|j: int, i: int| 0 <= j < descriptors@.len() && 0 <= i < descriptors@[j].1@.len()
                    && !descriptor_ok(#[trigger] descriptors@[j].1@[i]);
                assert(decodes_to(patched@[j].1@[i], descriptors@[j].1@[i]));
                assert(!patched_ok(patched@[j].1@[i]));
            }
            return None;
        },
    };
    proof {
        assert forall|k: int, i: int| 0 <= k < patched@.len() && 0 <= i < patched@[k].1@.len()
            implies patched_ok(#[trigger] patched@[k].1@[i]) by {
            assert(decodes_to(patched@[k].1@[i], descriptors@[k].1@[i]));
            assert(descriptor_ok(descriptors@[k].1@[i]));
        }
        assert forall|k: int| 0 <= k < patched@.len()
            implies (#[trigger] set_layouts@[k]).1@ == Seq::new(patched@[k].1@.len(), |i: int| spec_patched_layout_binding(patched@[k].1@[i], stage)) by {
            assert forall|i: int| 0 <= i < patched@[k].1@.len()
                implies spec_layout_binding(descriptors@[k].1@[i], stage) == spec_patched_layout_binding(patched@[k].1@[i], stage) by {
                assert(decodes_to(patched@[k].1@[i], descriptors@[k].1@[i]));
            }
            assert(set_layouts@[k].1@ =~= Seq::new(patched@[k].1@.len(), |i: int| spec_patched_layout_binding(patched@[k].1@[i], stage)));
        }
    }
    Some((descriptors, set_layouts))
}

} // verus!
