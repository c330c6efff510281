//! Creating and destroying resources: the states textures rest in, the
//! barriers and copies that initialize them, buffer usage, draw bindings,
//! the views that shader view sets create, and what destroying each kind
//! of resource releases.

use vstd::prelude::*;
use crate::vulkan;
use crate::format::RenderFormat;
use crate::format::spec_format_has_depth;
use crate::format::format_has_depth;
use crate::format::spec_image_aspect_flags;
use crate::format::get_image_aspect_flags;
use crate::format::spec_convert_format;
use crate::format::convert_format;
use crate::image::RenderBindFlags;
use crate::image::RenderTextureDesc;
use crate::image::RenderTextureType;
use crate::image::RenderViewDimension;
use crate::image::is_cube;
use crate::image::spec_view_dimension_to_view_type;
use crate::image::convert_view_dimension_to_view_type;
use crate::states::RenderResourceStates;
use crate::states::AccessType;
use crate::states::BarrierLayout;
use crate::render_pass::ImageViewInfo;
use crate::descriptor_cache::ShaderViewBinding;
use crate::descriptor_cache::CachedDescriptorSet;
use crate::descriptor_cache::ViewResource;

verus! {

// ---------------------------------------------------------------------
// Textures

/// The state a new texture rests in: shader resource by default, so that
/// read-only textures never need transitions; common for textures shared
/// across devices; else by the first bind flag that applies.
pub open spec fn spec_texture_default_state(bind_flags: RenderBindFlags) -> RenderResourceStates {
    if bind_flags.spec_contains(RenderBindFlags::CROSS_DEVICE) {
        RenderResourceStates { bits: RenderResourceStates::COMMON }
    } else if bind_flags.spec_contains(RenderBindFlags::SHADER_RESOURCE) {
        RenderResourceStates { bits: RenderResourceStates::NON_PIXEL_SHADER_RESOURCE | RenderResourceStates::PIXEL_SHADER_RESOURCE }
    } else if bind_flags.spec_contains(RenderBindFlags::CONSTANT_BUFFER) || bind_flags.spec_contains(RenderBindFlags::VERTEX_BUFFER) {
        RenderResourceStates { bits: RenderResourceStates::VERTEX_AND_CONSTANT_BUFFER }
    } else if bind_flags.spec_contains(RenderBindFlags::INDEX_BUFFER) {
        RenderResourceStates { bits: RenderResourceStates::INDEX_BUFFER }
    } else if bind_flags.spec_contains(RenderBindFlags::RENDER_TARGET) {
        RenderResourceStates { bits: RenderResourceStates::RENDER_TARGET }
    } else if bind_flags.spec_contains(RenderBindFlags::DEPTH_STENCIL) {
        RenderResourceStates { bits: RenderResourceStates::DEPTH_WRITE }
    } else {
        RenderResourceStates { bits: RenderResourceStates::NON_PIXEL_SHADER_RESOURCE | RenderResourceStates::PIXEL_SHADER_RESOURCE }
    }
}

/// Default state of a new texture. Textures shared across devices cannot
/// be created with initial data.
pub fn texture_default_state(bind_flags: RenderBindFlags, has_initial_data: bool) -> (r: RenderResourceStates)
    requires
        bind_flags.spec_contains(RenderBindFlags::CROSS_DEVICE) ==> !has_initial_data,
    ensures
        r == spec_texture_default_state(bind_flags),
{
    let shader_resource = RenderResourceStates::NON_PIXEL_SHADER_RESOURCE | RenderResourceStates::PIXEL_SHADER_RESOURCE;
    let bits = if bind_flags.contains(RenderBindFlags::CROSS_DEVICE) {
        RenderResourceStates::COMMON
    } else if bind_flags.contains(RenderBindFlags::SHADER_RESOURCE) {
        shader_resource
    } else if bind_flags.contains(RenderBindFlags::CONSTANT_BUFFER) || bind_flags.contains(RenderBindFlags::VERTEX_BUFFER) {
        RenderResourceStates::VERTEX_AND_CONSTANT_BUFFER
    } else if bind_flags.contains(RenderBindFlags::INDEX_BUFFER) {
        RenderResourceStates::INDEX_BUFFER
    } else if bind_flags.contains(RenderBindFlags::RENDER_TARGET) {
        RenderResourceStates::RENDER_TARGET
    } else if bind_flags.contains(RenderBindFlags::DEPTH_STENCIL) {
        RenderResourceStates::DEPTH_WRITE
    } else {
        shader_resource
    };
    RenderResourceStates { bits }
}

/// A range of levels and layers of an image (`VkImageSubresourceRange`).
#[derive(Clone, Copy, Debug, PartialEq, Eq, Structural)]
pub struct SubresourceRange {
    pub aspect_mask: u32,
    pub base_mip_level: u32,
    pub level_count: u32,
    pub base_array_layer: u32,
    pub layer_count: u32,
}

/// Layers of a texture as an image: six per element for cube textures.
pub open spec fn spec_texture_layer_count(desc: RenderTextureDesc) -> u32 {
    if is_cube(desc.texture_type) { (desc.elements * 6) as u32 } else { desc.elements as u32 }
}

/// The whole of a texture: all its aspects, levels and layers.
pub open spec fn spec_texture_range(desc: RenderTextureDesc) -> SubresourceRange {
    SubresourceRange {
        aspect_mask: spec_image_aspect_flags(desc.format, false),
        base_mip_level: 0,
        level_count: desc.levels as u32,
        base_array_layer: 0,
        layer_count: spec_texture_layer_count(desc),
    }
}

/// Element counts whose six faces per element fit the 16-bit count.
pub open spec fn cube_layers_fit(desc: RenderTextureDesc) -> bool {
    is_cube(desc.texture_type) ==> desc.elements * 6 <= u16::MAX
}

pub fn texture_range(desc: &RenderTextureDesc) -> (r: SubresourceRange)
    requires
        cube_layers_fit(*desc),
    ensures
        r == spec_texture_range(*desc),
{
    let layer_count: u32 = match desc.texture_type {
        RenderTextureType::Cube | RenderTextureType::CubeArray => (desc.elements * 6) as u32,
        _ => desc.elements as u32,
    };
    SubresourceRange {
        aspect_mask: get_image_aspect_flags(desc.format, false),
        base_mip_level: 0,
        level_count: desc.levels as u32,
        base_array_layer: 0,
        layer_count,
    }
}

/// A barrier over a range of an image.
#[derive(Clone, Copy, Debug, PartialEq, Eq, Structural)]
pub struct ImageRangeBarrier {
    pub previous_access: AccessType,
    pub next_access: AccessType,
    pub previous_layout: BarrierLayout,
    pub next_layout: BarrierLayout,
    pub discard_contents: bool,
    pub image: u64,
    pub range: SubresourceRange,
}

/// The barriers around the first write of a new texture: from nothing to a
/// copy target (contents discarded), and from the copy target to general
/// access.
pub fn texture_write_barriers(image: u64, range: SubresourceRange) -> (r: (ImageRangeBarrier, ImageRangeBarrier))
    ensures
        r.0 == (ImageRangeBarrier {
            previous_access: AccessType::Nothing,
            next_access: AccessType::TransferWrite,
            previous_layout: BarrierLayout::General,
            next_layout: BarrierLayout::Optimal,
            discard_contents: true,
            image,
            range,
        }),
        r.1 == (ImageRangeBarrier {
            previous_access: AccessType::TransferWrite,
            next_access: AccessType::General,
            previous_layout: BarrierLayout::Optimal,
            next_layout: BarrierLayout::Optimal,
            discard_contents: false,
            image,
            range,
        }),
{
    (
        ImageRangeBarrier {
            previous_access: AccessType::Nothing,
            next_access: AccessType::TransferWrite,
            previous_layout: BarrierLayout::General,
            next_layout: BarrierLayout::Optimal,
            discard_contents: true,
            image,
            range,
        },
        ImageRangeBarrier {
            previous_access: AccessType::TransferWrite,
            next_access: AccessType::General,
            previous_layout: BarrierLayout::Optimal,
            next_layout: BarrierLayout::Optimal,
            discard_contents: false,
            image,
            range,
        },
    )
}

/// How a new texture without initial data is cleared.
#[derive(Clone, Copy, Debug, PartialEq, Eq, Structural)]
pub enum InitialClear {
    DepthStencil,
    Color,
}

/// Textures with depth are cleared as depth-stencil images, others as
/// color images.
pub fn initial_clear(format: RenderFormat) -> (r: InitialClear)
    ensures
        r == (if spec_format_has_depth(format) { InitialClear::DepthStencil } else { InitialClear::Color }),
{
    if format_has_depth(format) {
        InitialClear::DepthStencil
    } else {
        InitialClear::Color
    }
}

/// Mip levels down to a single texel along a dimension of size `x`.
pub open spec fn spec_mip_count(x: nat) -> nat
    decreases x,
{
    if x <= 1 { 1 } else { 1 + spec_mip_count(x / 2) }
}

/// The most mip levels a texture of this size can have.
pub open spec fn spec_texture_max_mip_count(width: u32, height: u32, depth: u32) -> nat {
    let m = if width >= height && width >= depth { width } else if height >= depth { height } else { depth };
    spec_mip_count(m as nat)
}

/// Mip counts stay within the bits of the size.
proof fn lemma_mip_count_bound(x: nat, bits: nat)
    requires
        x < pow2_nat(bits),
    ensures
        spec_mip_count(x) <= bits + 1,
    decreases x,
{
    if x > 1 {
        assert(bits > 0) by {
            if bits == 0 {
                assert(pow2_nat(0) == 1);
            }
        }
        assert(pow2_nat(bits) == 2 * pow2_nat((bits - 1) as nat));
        lemma_mip_count_bound(x / 2, (bits - 1) as nat);
    }
}

/// Two to the 32nd is the first value past 32 bits.
proof fn lemma_pow2_32()
    ensures
        pow2_nat(32) == 0x1_0000_0000,
{
    reveal_with_fuel(pow2_nat, 33);
}

/// Two to the power `n`.
pub open spec fn pow2_nat(n: nat) -> nat
    decreases n,
{
    if n == 0 { 1 } else { 2 * pow2_nat((n - 1) as nat) }
}

/// The most mip levels a texture of this size can have.
pub fn texture_max_mip_count(width: u32, height: u32, depth: u32) -> (r: u32)
    ensures
        r == spec_texture_max_mip_count(width, height, depth),
        1 <= r <= 32,
{
    let m = if width >= height && width >= depth { width } else if height >= depth { height } else { depth };
    let mut x = m;
    let mut count: u32 = 1;
    proof {
        lemma_pow2_32();
        lemma_mip_count_bound(m as nat, 32);
    }
    while x > 1
        invariant
            count >= 1,
            count + spec_mip_count(x as nat) == 1 + spec_mip_count(m as nat),
            spec_mip_count(m as nat) <= 33,
        decreases x,
    {
        x = x / 2;
        count = count + 1;
    }
    proof {
        // The largest 32-bit size halves 31 times.
        assert(m <= u32::MAX);
        lemma_mip_count_tight(m as nat);
    }
    count
}

/// A 32-bit size has at most 32 mip levels.
proof fn lemma_mip_count_tight(x: nat)
    requires
        x <= u32::MAX,
    ensures
        spec_mip_count(x) <= 32,
{
    lemma_pow2_32();
    lemma_mip_count_below(x, 32);
}

/// Below `2^bits` a size has at most `bits` mip levels (for `bits >= 1`).
proof fn lemma_mip_count_below(x: nat, bits: nat)
    requires
        bits >= 1,
        x < pow2_nat(bits),
    ensures
        spec_mip_count(x) <= bits,
    decreases bits,
{
    if x > 1 {
        assert(pow2_nat(bits) == 2 * pow2_nat((bits - 1) as nat));
        if bits == 1 {
            assert(pow2_nat(0) == 1);
        } else {
            lemma_mip_count_below(x / 2, (bits - 1) as nat);
        }
    }
}

/// One copy of initial data into a sub-resource of a new texture: which
/// mip and slice, the mip's size, and the pitches of the source data.
#[derive(Clone, Copy, Debug, PartialEq, Eq, Structural)]
pub struct UploadRegion {
    pub mip_level: u32,
    pub array_layer: u32,
    pub width: u32,
    pub height: u32,
    pub depth: u32,
    pub row_pitch: u32,
    pub slice_pitch: u32,
}

/// The larger of 1 and `x >> shift`.
pub open spec fn mip_dim(x: u32, shift: u32) -> u32 {
    if (x >> shift) > 1 { x >> shift } else { 1 }
}

/// The copy for sub-resource `sub`: sub-resources are numbered level by
/// level within each slice, so the mip is the remainder and the slice the
/// quotient by the level count. A slice pitch of 0 means rows packed
/// tightly over the mip's height.
pub open spec fn spec_upload_region(desc: RenderTextureDesc, row_pitch: u32, slice_pitch: u32, sub: int) -> UploadRegion {
    let levels = desc.levels as int;
    let mip = (sub % levels) as u32;
    let height = mip_dim(desc.height, mip);
    UploadRegion {
        mip_level: mip,
        array_layer: (sub / levels) as u32,
        width: mip_dim(desc.width, mip),
        height,
        depth: mip_dim(desc.depth as u32, mip),
        row_pitch,
        slice_pitch: if slice_pitch == 0 { (row_pitch * height) as u32 } else { slice_pitch },
    }
}

/// Texture descriptions whose initial data can be uploaded: the level
/// count is within what the size allows, and the sub-resource count and
/// pitches fit.
pub open spec fn upload_fits(desc: RenderTextureDesc, row_pitch: u32) -> bool {
    &&& desc.levels >= 1
    &&& desc.levels <= spec_texture_max_mip_count(desc.width, desc.height, desc.depth as u32)
    &&& spec_texture_layer_count(desc) * desc.levels <= u32::MAX
    &&& row_pitch * desc.height <= u32::MAX
    &&& cube_layers_fit(desc)
}

/// The copies that upload initial data into every sub-resource of a new
/// texture, in sub-resource order.
pub fn texture_upload_regions(desc: &RenderTextureDesc, row_pitch: u32, slice_pitch: u32) -> (r: Vec<UploadRegion>)
    requires
        upload_fits(*desc, row_pitch),
    ensures
        r@ == Seq::new(
            (spec_texture_layer_count(*desc) * desc.levels) as nat,
            |sub: int| spec_upload_region(*desc, row_pitch, slice_pitch, sub),
        ),
{
    let max_mips = texture_max_mip_count(desc.width, desc.height, desc.depth as u32);
    let levels = desc.levels as u32;
    let range = texture_range(desc);
    let count = range.layer_count * levels;
    let mut r: Vec<UploadRegion> = Vec::new();
    let mut sub: u32 = 0;
    while sub < count
        invariant
            sub <= count,
            count == spec_texture_layer_count(*desc) * desc.levels,
            levels == desc.levels,
            1 <= levels <= max_mips <= 32,
            row_pitch * desc.height <= u32::MAX,
            r@ == Seq::new(sub as nat, |k: int| spec_upload_region(*desc, row_pitch, slice_pitch, k)),
        decreases count - sub,
    {
        let mip = sub % levels;
        let slice = sub / levels;
        let height = desc.height;
        let w = desc.width >> mip;
        let h = height >> mip;
        let d = (desc.depth as u32) >> mip;
        let mip_width = if w > 1 { w } else { 1 };
        let mip_height = if h > 1 { h } else { 1 };
        let mip_depth = if d > 1 { d } else { 1 };
        proof {
            assert(h <= height) by (bit_vector)
                requires h == height >> mip;
            assert(row_pitch * mip_height <= u32::MAX) by (nonlinear_arith)
                requires
                    row_pitch * desc.height <= u32::MAX,
                    mip_height <= desc.height || (desc.height == 0 && mip_height == 1),
                    mip_height >= 1;
        }
        let pitch = if slice_pitch == 0 { row_pitch * mip_height } else { slice_pitch };
        r.push(UploadRegion {
            mip_level: mip,
            array_layer: slice,
            width: mip_width,
            height: mip_height,
            depth: mip_depth,
            row_pitch,
            slice_pitch: pitch,
        });
        sub += 1;
        assert(r@ =~= Seq::new(sub as nat, |k: int| spec_upload_region(*desc, row_pitch, slice_pitch, k)));
    }
    r
}

// ---------------------------------------------------------------------
// Buffers

/// Usage of a buffer: always a copy source and target; texel, uniform and
/// storage use for shader resources and unordered access; vertex and
/// uniform use for vertex and constant buffers; index, indirect and
/// storage (stream output) use as flagged.
pub open spec fn spec_buffer_usage(bind_flags: RenderBindFlags) -> u32 {
    let base = vulkan::BUFFER_USAGE_TRANSFER_DST | vulkan::BUFFER_USAGE_TRANSFER_SRC;
    let shader: u32 = if bind_flags.spec_contains(RenderBindFlags::SHADER_RESOURCE)
        || bind_flags.spec_contains(RenderBindFlags::UNORDERED_ACCESS) {
        vulkan::BUFFER_USAGE_UNIFORM_TEXEL_BUFFER | vulkan::BUFFER_USAGE_UNIFORM_BUFFER
            | vulkan::BUFFER_USAGE_STORAGE_TEXEL_BUFFER | vulkan::BUFFER_USAGE_STORAGE_BUFFER
    } else { 0 };
    let vertex: u32 = if bind_flags.spec_contains(RenderBindFlags::VERTEX_BUFFER)
        || bind_flags.spec_contains(RenderBindFlags::CONSTANT_BUFFER) {
        vulkan::BUFFER_USAGE_VERTEX_BUFFER | vulkan::BUFFER_USAGE_UNIFORM_BUFFER
    } else { 0 };
    let index: u32 = if bind_flags.spec_contains(RenderBindFlags::INDEX_BUFFER) { vulkan::BUFFER_USAGE_INDEX_BUFFER } else { 0 };
    let indirect: u32 = if bind_flags.spec_contains(RenderBindFlags::INDIRECT_BUFFER) { vulkan::BUFFER_USAGE_INDIRECT_BUFFER } else { 0 };
    let stream: u32 = if bind_flags.spec_contains(RenderBindFlags::STREAM_OUTPUT) { vulkan::BUFFER_USAGE_STORAGE_BUFFER } else { 0 };
    base | shader | vertex | index | indirect | stream
}

/// The usage word of a buffer, from whether it is bound to shaders, as a
/// vertex or constant buffer, as an index buffer, for indirect arguments
/// and for stream output.
pub open spec fn usage_word(shader: bool, vertex: bool, index: bool, indirect: bool, stream: bool) -> u32 {
    (vulkan::BUFFER_USAGE_TRANSFER_DST | vulkan::BUFFER_USAGE_TRANSFER_SRC)
        | (if shader {
            vulkan::BUFFER_USAGE_UNIFORM_TEXEL_BUFFER | vulkan::BUFFER_USAGE_UNIFORM_BUFFER
                | vulkan::BUFFER_USAGE_STORAGE_TEXEL_BUFFER | vulkan::BUFFER_USAGE_STORAGE_BUFFER
        } else { 0u32 })
        | (if vertex { vulkan::BUFFER_USAGE_VERTEX_BUFFER | vulkan::BUFFER_USAGE_UNIFORM_BUFFER } else { 0u32 })
        | (if index { vulkan::BUFFER_USAGE_INDEX_BUFFER } else { 0u32 })
        | (if indirect { vulkan::BUFFER_USAGE_INDIRECT_BUFFER } else { 0u32 })
        | (if stream { vulkan::BUFFER_USAGE_STORAGE_BUFFER } else { 0u32 })
}

proof fn lemma_usage_word_bits(shader: bool, vertex: bool, index: bool, indirect: bool, stream: bool)
    by (bit_vector)
    ensures
        usage_word(shader, vertex, index, indirect, stream) & 1u32 != 0,
        usage_word(shader, vertex, index, indirect, stream) & 2u32 != 0,
        (usage_word(shader, vertex, index, indirect, stream) & 4u32 != 0) == shader,
        (usage_word(shader, vertex, index, indirect, stream) & 8u32 != 0) == shader,
        (usage_word(shader, vertex, index, indirect, stream) & 16u32 != 0) == (shader || vertex),
        (usage_word(shader, vertex, index, indirect, stream) & 32u32 != 0) == (shader || stream),
        (usage_word(shader, vertex, index, indirect, stream) & 64u32 != 0) == index,
        (usage_word(shader, vertex, index, indirect, stream) & 128u32 != 0) == vertex,
        (usage_word(shader, vertex, index, indirect, stream) & 256u32 != 0) == indirect,
        usage_word(shader, vertex, index, indirect, stream) < 512u32,
{
}

/// A buffer may be used exactly as its bind flags ask: always as a transfer
/// source and destination; as a uniform and storage texel buffer when bound
/// to shaders (as a shader resource or for unordered access); as a uniform
/// buffer when bound to shaders or as a vertex or constant buffer; as a
/// storage buffer when bound to shaders or for stream output; as a vertex
/// buffer when bound as a vertex or constant buffer; as an index buffer and
/// an indirect buffer when bound so; and in no other way.
pub proof fn lemma_buffer_usage_bits(bind_flags: RenderBindFlags)
    ensures
        ({
            let u = spec_buffer_usage(bind_flags);
            let shader = bind_flags.spec_contains(RenderBindFlags::SHADER_RESOURCE)
                || bind_flags.spec_contains(RenderBindFlags::UNORDERED_ACCESS);
            let vertex = bind_flags.spec_contains(RenderBindFlags::VERTEX_BUFFER)
                || bind_flags.spec_contains(RenderBindFlags::CONSTANT_BUFFER);
            &&& u & vulkan::BUFFER_USAGE_TRANSFER_SRC != 0
            &&& u & vulkan::BUFFER_USAGE_TRANSFER_DST != 0
            &&& (u & vulkan::BUFFER_USAGE_UNIFORM_TEXEL_BUFFER != 0) == shader
            &&& (u & vulkan::BUFFER_USAGE_STORAGE_TEXEL_BUFFER != 0) == shader
            &&& (u & vulkan::BUFFER_USAGE_UNIFORM_BUFFER != 0) == (shader || vertex)
            &&& (u & vulkan::BUFFER_USAGE_STORAGE_BUFFER != 0)
                == (shader || bind_flags.spec_contains(RenderBindFlags::STREAM_OUTPUT))
            &&& (u & vulkan::BUFFER_USAGE_VERTEX_BUFFER != 0) == vertex
            &&& (u & vulkan::BUFFER_USAGE_INDEX_BUFFER != 0) == bind_flags.spec_contains(RenderBindFlags::INDEX_BUFFER)
            &&& (u & vulkan::BUFFER_USAGE_INDIRECT_BUFFER != 0) == bind_flags.spec_contains(RenderBindFlags::INDIRECT_BUFFER)
            &&& u < 512
        }),
{
    let shader = bind_flags.spec_contains(RenderBindFlags::SHADER_RESOURCE)
        || bind_flags.spec_contains(RenderBindFlags::UNORDERED_ACCESS);
    let vertex = bind_flags.spec_contains(RenderBindFlags::VERTEX_BUFFER)
        || bind_flags.spec_contains(RenderBindFlags::CONSTANT_BUFFER);
    let index = bind_flags.spec_contains(RenderBindFlags::INDEX_BUFFER);
    let indirect = bind_flags.spec_contains(RenderBindFlags::INDIRECT_BUFFER);
    let stream = bind_flags.spec_contains(RenderBindFlags::STREAM_OUTPUT);
    lemma_usage_word_bits(shader, vertex, index, indirect, stream);
    assert(spec_buffer_usage(bind_flags) == usage_word(shader, vertex, index, indirect, stream));
}

pub fn buffer_usage(bind_flags: RenderBindFlags) -> (r: u32)
    ensures
        r == spec_buffer_usage(bind_flags),
        r & vulkan::BUFFER_USAGE_TRANSFER_SRC != 0,
        r & vulkan::BUFFER_USAGE_TRANSFER_DST != 0,
        (r & vulkan::BUFFER_USAGE_INDEX_BUFFER != 0) == bind_flags.spec_contains(RenderBindFlags::INDEX_BUFFER),
        (r & vulkan::BUFFER_USAGE_INDIRECT_BUFFER != 0) == bind_flags.spec_contains(RenderBindFlags::INDIRECT_BUFFER),
        (r & vulkan::BUFFER_USAGE_VERTEX_BUFFER != 0) == (bind_flags.spec_contains(RenderBindFlags::VERTEX_BUFFER)
            || bind_flags.spec_contains(RenderBindFlags::CONSTANT_BUFFER)),
{
    proof {
        lemma_buffer_usage_bits(bind_flags);
    }
    let base = vulkan::BUFFER_USAGE_TRANSFER_DST | vulkan::BUFFER_USAGE_TRANSFER_SRC;
    let shader: u32 = if bind_flags.contains(RenderBindFlags::SHADER_RESOURCE)
        || bind_flags.contains(RenderBindFlags::UNORDERED_ACCESS) {
        vulkan::BUFFER_USAGE_UNIFORM_TEXEL_BUFFER | vulkan::BUFFER_USAGE_UNIFORM_BUFFER
            | vulkan::BUFFER_USAGE_STORAGE_TEXEL_BUFFER | vulkan::BUFFER_USAGE_STORAGE_BUFFER
    } else { 0 };
    let vertex: u32 = if bind_flags.contains(RenderBindFlags::VERTEX_BUFFER)
        || bind_flags.contains(RenderBindFlags::CONSTANT_BUFFER) {
        vulkan::BUFFER_USAGE_VERTEX_BUFFER | vulkan::BUFFER_USAGE_UNIFORM_BUFFER
    } else { 0 };
    let index: u32 = if bind_flags.contains(RenderBindFlags::INDEX_BUFFER) { vulkan::BUFFER_USAGE_INDEX_BUFFER } else { 0 };
    let indirect: u32 = if bind_flags.contains(RenderBindFlags::INDIRECT_BUFFER) { vulkan::BUFFER_USAGE_INDIRECT_BUFFER } else { 0 };
    let stream: u32 = if bind_flags.contains(RenderBindFlags::STREAM_OUTPUT) { vulkan::BUFFER_USAGE_STORAGE_BUFFER } else { 0 };
    base | shader | vertex | index | indirect | stream
}

/// A copy between buffers (`VkBufferCopy`).
#[derive(Clone, Copy, Debug, PartialEq, Eq, Structural)]
pub struct BufferCopy {
    pub src_offset: u64,
    pub dst_offset: u64,
    pub size: u64,
}

/// The copy of a buffer's initial data from its upload allocation: the
/// whole buffer, from where the allocation starts.
pub fn buffer_upload_copy(allocation_offset: usize, size: usize) -> (r: BufferCopy)
    ensures
        r == (BufferCopy { src_offset: allocation_offset as u64, dst_offset: 0, size: size as u64 }),
{
    BufferCopy { src_offset: allocation_offset as u64, dst_offset: 0, size: size as u64 }
}

// ---------------------------------------------------------------------
// Draw bindings

/// Vulkan index type of an index stride: 16-bit for 2 bytes, 32-bit for 4.
pub fn index_type(stride: u32) -> (r: i32)
    requires
        stride == 2 || stride == 4,
    ensures
        r == (if stride == 2 { vulkan::INDEX_TYPE_UINT16 } else { vulkan::INDEX_TYPE_UINT32 }),
{
    if stride == 2 {
        vulkan::INDEX_TYPE_UINT16
    } else {
        vulkan::INDEX_TYPE_UINT32
    }
}

/// A buffer bound for drawing: the buffer, an offset into it, the stride
/// of its elements and the states it supports.
#[derive(Clone, Copy, Debug, PartialEq, Eq, Structural)]
pub struct BufferBinding {
    pub resource: u64,
    pub offset: u32,
    pub stride: u32,
    pub supported_states: RenderResourceStates,
}

/// The buffers a draw binding set binds.
pub struct DrawBindingPlan {
    pub index_buffer: Option<u64>,
    pub index_buffer_offset: u64,
    pub index_type: i32,
    pub vertex_buffers: Vec<Option<u64>>,
    pub vertex_buffer_offsets: Vec<u64>,
}

/// Plan a draw binding set: the index buffer with its offset and index
/// type (32-bit when there is none), and per stream the vertex buffer and
/// its offset (0 for an empty stream). Index buffers support the index
/// state and vertex buffers the vertex state.
pub fn draw_binding_plan(index: Option<BufferBinding>, vertex: &Vec<Option<BufferBinding>>) -> (r: DrawBindingPlan)
    requires
        index matches Some(b) ==> (b.stride == 2 || b.stride == 4)
            && b.supported_states.spec_contains(RenderResourceStates::INDEX_BUFFER),
        forall|i: int| 0 <= i < vertex@.len() ==> ((#[trigger] vertex@[i]) matches Some(b)
            ==> b.supported_states.spec_contains(RenderResourceStates::VERTEX_AND_CONSTANT_BUFFER)),
    ensures
        r.index_buffer == (match index { Some(b) => Some(b.resource), None => None::<u64> }),
        r.index_buffer_offset == (match index { Some(b) => b.offset as u64, None => 0 }),
        r.index_type == (match index {
            Some(b) => if b.stride == 2 { vulkan::INDEX_TYPE_UINT16 } else { vulkan::INDEX_TYPE_UINT32 },
            None => vulkan::INDEX_TYPE_UINT32,
        }),
        r.vertex_buffers@ == vertex@.map_values(|v: Option<BufferBinding>| match v { Some(b) => Some(b.resource), None => None::<u64> }),
        r.vertex_buffer_offsets@ == vertex@.map_values(|v: Option<BufferBinding>| match v { Some(b) => b.offset as u64, None => 0u64 }),
{
    let (index_buffer, index_buffer_offset, index_type) = match index {
        Some(b) => (Some(b.resource), b.offset as u64, index_type(b.stride)),
        None => (None, 0u64, vulkan::INDEX_TYPE_UINT32),
    };
    let mut vertex_buffers: Vec<Option<u64>> = Vec::new();
    let mut vertex_buffer_offsets: Vec<u64> = Vec::new();
    let mut i: usize = 0;
    while i < vertex.len()
        invariant
            i <= vertex@.len(),
            vertex_buffers@ == vertex@.take(i as int).map_values(|v: Option<BufferBinding>| match v { Some(b) => Some(b.resource), None => None::<u64> }),
            vertex_buffer_offsets@ == vertex@.take(i as int).map_values(|v: Option<BufferBinding>| match v { Some(b) => b.offset as u64, None => 0u64 }),
        decreases vertex@.len() - i,
    {
        match vertex[i] {
            Some(b) => {
                vertex_buffers.push(Some(b.resource));
                vertex_buffer_offsets.push(b.offset as u64);
            },
            None => {
                vertex_buffers.push(None);
                vertex_buffer_offsets.push(0);
            },
        }
        i += 1;
        assert(vertex_buffers@ =~= vertex@.take(i as int).map_values(|v: Option<BufferBinding>| match v { Some(b) => Some(b.resource), None => None::<u64> }));
        assert(vertex_buffer_offsets@ =~= vertex@.take(i as int).map_values(|v: Option<BufferBinding>| match v { Some(b) => b.offset as u64, None => 0u64 }));
    }
    assert(vertex@.take(i as int) =~= vertex@);
    DrawBindingPlan { index_buffer, index_buffer_offset, index_type, vertex_buffers, vertex_buffer_offsets }
}

// ---------------------------------------------------------------------
// Shader views

/// The texture a shader view looks at.
#[derive(Clone, Copy, Debug, PartialEq, Eq, Structural)]
pub struct ViewedTexture {
    pub image: u64,
    pub format: RenderFormat,
    pub texture_type: RenderTextureType,
}

/// Single-channel 32-bit float views of a 32-bit depth texture view its
/// depth aspect in the depth format.
pub open spec fn depth_view_fixup(texture_format: RenderFormat, info: ImageViewInfo) -> ImageViewInfo {
    if texture_format == RenderFormat::D32Float && info.format == vulkan::FORMAT_R32_SFLOAT {
        ImageViewInfo { format: vulkan::FORMAT_D32_SFLOAT, aspect_mask: vulkan::IMAGE_ASPECT_DEPTH, ..info }
    } else {
        info
    }
}

fn apply_depth_view_fixup(texture_format: RenderFormat, info: ImageViewInfo) -> (r: ImageViewInfo)
    ensures
        r == depth_view_fixup(texture_format, info),
{
    if texture_format == RenderFormat::D32Float && info.format == vulkan::FORMAT_R32_SFLOAT {
        ImageViewInfo { format: vulkan::FORMAT_D32_SFLOAT, aspect_mask: vulkan::IMAGE_ASPECT_DEPTH, ..info }
    } else {
        info
    }
}

/// A shader resource view of a texture.
#[derive(Clone, Copy, Debug, PartialEq, Eq, Structural)]
pub struct TextureSrv {
    pub format: RenderFormat,
    pub dimension: RenderViewDimension,
    pub most_detailed_mip: u32,
    pub mip_levels: u32,
    pub first_array_slice: u32,
    pub array_size: u32,
}

/// The larger of `x` and 1.
pub open spec fn at_least_one(x: u32) -> u32 {
    if x > 1 { x } else { 1 }
}

/// The image view of a shader resource view: its levels from the most
/// detailed on (at least one), and its slices (at least one), counted in
/// faces for cube textures.
pub open spec fn spec_srv_view_info(t: ViewedTexture, v: TextureSrv) -> ImageViewInfo {
    let cube = is_cube(t.texture_type);
    depth_view_fixup(t.format, ImageViewInfo {
        image: t.image,
        view_type: spec_view_dimension_to_view_type(v.dimension),
        format: spec_convert_format(v.format),
        aspect_mask: spec_image_aspect_flags(v.format, true),
        base_mip_level: v.most_detailed_mip,
        level_count: at_least_one(v.mip_levels),
        base_array_layer: if cube { (v.first_array_slice * 6) as u32 } else { v.first_array_slice },
        layer_count: if cube { (at_least_one(v.array_size) * 6) as u32 } else { at_least_one(v.array_size) },
    })
}

pub fn srv_view_info(t: &ViewedTexture, v: &TextureSrv) -> (r: ImageViewInfo)
    requires
        v.dimension != RenderViewDimension::Buffer,
        is_cube(t.texture_type) ==> v.first_array_slice * 6 <= u32::MAX && at_least_one(v.array_size) * 6 <= u32::MAX,
    ensures
        r == spec_srv_view_info(*t, *v),
{
    let cube = match t.texture_type {
        RenderTextureType::Cube | RenderTextureType::CubeArray => true,
        _ => false,
    };
    let levels = if v.mip_levels > 1 { v.mip_levels } else { 1 };
    let size = if v.array_size > 1 { v.array_size } else { 1 };
    let info = ImageViewInfo {
        image: t.image,
        view_type: convert_view_dimension_to_view_type(v.dimension),
        format: convert_format(v.format, false),
        aspect_mask: get_image_aspect_flags(v.format, true),
        base_mip_level: v.most_detailed_mip,
        level_count: levels,
        base_array_layer: if cube { v.first_array_slice * 6 } else { v.first_array_slice },
        layer_count: if cube { size * 6 } else { size },
    };
    apply_depth_view_fixup(t.format, info)
}

/// An unordered access view of a texture.
#[derive(Clone, Copy, Debug, PartialEq, Eq, Structural)]
pub struct TextureUav {
    pub format: RenderFormat,
    pub dimension: RenderViewDimension,
    pub mip_slice: u32,
    pub first_array_slice: u32,
    pub array_size: u32,
}

/// The image view of an unordered access view: it starts at its mip slice
/// and takes as many levels as its first array slice says (at least one),
/// starts at the layer its array size names (in faces for cube textures),
/// and covers one layer, or six faces for cube textures.
pub open spec fn spec_uav_view_info(t: ViewedTexture, v: TextureUav) -> ImageViewInfo {
    let cube = is_cube(t.texture_type);
    depth_view_fixup(t.format, ImageViewInfo {
        image: t.image,
        view_type: spec_view_dimension_to_view_type(v.dimension),
        format: spec_convert_format(v.format),
        aspect_mask: spec_image_aspect_flags(v.format, true),
        base_mip_level: v.mip_slice,
        level_count: at_least_one(v.first_array_slice),
        base_array_layer: if cube { (v.array_size * 6) as u32 } else { v.array_size },
        layer_count: if cube { 6 } else { 1 },
    })
}

pub fn uav_view_info(t: &ViewedTexture, v: &TextureUav) -> (r: ImageViewInfo)
    requires
        v.dimension != RenderViewDimension::Buffer,
        is_cube(t.texture_type) ==> v.array_size * 6 <= u32::MAX,
    ensures
        r == spec_uav_view_info(*t, *v),
{
    let cube = match t.texture_type {
        RenderTextureType::Cube | RenderTextureType::CubeArray => true,
        _ => false,
    };
    let info = ImageViewInfo {
        image: t.image,
        view_type: convert_view_dimension_to_view_type(v.dimension),
        format: convert_format(v.format, false),
        aspect_mask: get_image_aspect_flags(v.format, true),
        base_mip_level: v.mip_slice,
        level_count: if v.first_array_slice > 1 { v.first_array_slice } else { 1 },
        base_array_layer: if cube { v.array_size * 6 } else { v.array_size },
        layer_count: if cube { 6 } else { 1 },
    };
    apply_depth_view_fixup(t.format, info)
}

/// Whether a view of a buffer gets a typed buffer view: only views with a
/// format do.
pub fn buffer_view_needed(format: RenderFormat) -> (r: bool)
    ensures
        r == (spec_convert_format(format) != vulkan::FORMAT_UNDEFINED),
{
    convert_format(format, false) != vulkan::FORMAT_UNDEFINED
}

// ---------------------------------------------------------------------
// Resource records

/// States with the copy states added: every texture and buffer can be
/// copied from and into.
pub open spec fn with_copy_states(states: RenderResourceStates) -> RenderResourceStates {
    RenderResourceStates { bits: states.bits | RenderResourceStates::COPY_SOURCE | RenderResourceStates::COPY_DEST }
}

/// The backend's record of a texture: its description and image, whether
/// it owns its memory (swap chain images do not), and the states it
/// supports and rests in.
#[derive(Clone, Copy, Debug, PartialEq, Eq, Structural)]
pub struct TextureRecord {
    pub desc: RenderTextureDesc,
    pub image: u64,
    pub owns_memory: bool,
    pub supported_states: RenderResourceStates,
    pub default_state: RenderResourceStates,
}

/// The record of a texture created with memory of its own: it supports
/// the states its bind flags allow (`resource_states`) and the copy states,
/// and rests in its default state.
pub fn texture_record(desc: &RenderTextureDesc, image: u64, resource_states: RenderResourceStates, has_initial_data: bool) -> (r: TextureRecord)
    requires
        desc.bind_flags.spec_contains(RenderBindFlags::CROSS_DEVICE) ==> !has_initial_data,
    ensures
        r == (TextureRecord {
            desc: *desc,
            image,
            owns_memory: true,
            supported_states: with_copy_states(resource_states),
            default_state: spec_texture_default_state(desc.bind_flags),
        }),
{
    TextureRecord {
        desc: *desc,
        image,
        owns_memory: true,
        supported_states: RenderResourceStates {
            bits: resource_states.bits | RenderResourceStates::COPY_SOURCE | RenderResourceStates::COPY_DEST,
        },
        default_state: texture_default_state(desc.bind_flags, has_initial_data),
    }
}

/// What a buffer is created as: its bind flags and size in bytes.
#[derive(Clone, Copy, Debug, PartialEq, Eq, Structural)]
pub struct RenderBufferDesc {
    pub bind_flags: RenderBindFlags,
    pub size: usize,
}

/// The backend's record of a buffer: its description and buffer, and the
/// states it supports and rests in.
#[derive(Clone, Copy, Debug, PartialEq, Eq, Structural)]
pub struct BufferRecord {
    pub desc: RenderBufferDesc,
    pub buffer: u64,
    pub supported_states: RenderResourceStates,
    pub default_state: RenderResourceStates,
}

/// The record of a created buffer: it supports the states its bind flags
/// allow (`resource_states`) and the copy states, and rests in the default
/// state of its bind flags (`default_state`).
pub fn buffer_record(desc: &RenderBufferDesc, buffer: u64, resource_states: RenderResourceStates, default_state: RenderResourceStates) -> (r: BufferRecord)
    ensures
        r == (BufferRecord { desc: *desc, buffer, supported_states: with_copy_states(resource_states), default_state }),
{
    BufferRecord {
        desc: *desc,
        buffer,
        supported_states: RenderResourceStates {
            bits: resource_states.bits | RenderResourceStates::COPY_SOURCE | RenderResourceStates::COPY_DEST,
        },
        default_state,
    }
}

/// What a view of a shader view set looks at: a texture, viewed as a
/// shader resource or for unordered access, or a buffer, in a format.
#[derive(Clone, Copy, Debug, PartialEq, Eq, Structural)]
pub enum ViewSource {
    TextureSrv { resource: u64, texture: ViewedTexture, default_state: RenderResourceStates, srv: TextureSrv },
    TextureUav { resource: u64, texture: ViewedTexture, default_state: RenderResourceStates, uav: TextureUav },
    Buffer { resource: u64, buffer: u64, size: usize, format: RenderFormat },
}

/// Views whose creation is defined: texture views of a dimension other
/// than a buffer's, whose slices fit when counted in faces.
pub open spec fn view_source_ok(s: ViewSource) -> bool {
    match s {
        ViewSource::TextureSrv { texture, srv, .. } => srv.dimension != RenderViewDimension::Buffer
            && (is_cube(texture.texture_type) ==> srv.first_array_slice * 6 <= u32::MAX && at_least_one(srv.array_size) * 6 <= u32::MAX),
        ViewSource::TextureUav { texture, uav, .. } => uav.dimension != RenderViewDimension::Buffer
            && (is_cube(texture.texture_type) ==> uav.array_size * 6 <= u32::MAX),
        ViewSource::Buffer { .. } => true,
    }
}

/// How the object of a view is created.
#[derive(Clone, Copy, Debug, PartialEq, Eq, Structural)]
pub enum ViewCreation {
    /// An image view with this description.
    Image(ImageViewInfo),
    /// A typed view of the whole buffer, in this Vulkan format.
    TypedBuffer { buffer: u64, format: i32 },
    /// No object: the buffer is bound as it is.
    Untyped,
}

/// The creation of a view's object: texture views get an image view,
/// buffer views with a format a typed buffer view, others none.
pub open spec fn spec_view_creation(s: ViewSource) -> ViewCreation {
    match s {
        ViewSource::TextureSrv { texture, srv, .. } => ViewCreation::Image(spec_srv_view_info(texture, srv)),
        ViewSource::TextureUav { texture, uav, .. } => ViewCreation::Image(spec_uav_view_info(texture, uav)),
        ViewSource::Buffer { buffer, format, .. } => if spec_convert_format(format) != vulkan::FORMAT_UNDEFINED {
            ViewCreation::TypedBuffer { buffer, format: spec_convert_format(format) }
        } else {
            ViewCreation::Untyped
        },
    }
}

pub fn view_creation(s: &ViewSource) -> (r: ViewCreation)
    requires
        view_source_ok(*s),
    ensures
        r == spec_view_creation(*s),
{
    match s {
        ViewSource::TextureSrv { texture, srv, .. } => ViewCreation::Image(srv_view_info(texture, srv)),
        ViewSource::TextureUav { texture, uav, .. } => ViewCreation::Image(uav_view_info(texture, uav)),
        ViewSource::Buffer { buffer, format, .. } => if buffer_view_needed(*format) {
            ViewCreation::TypedBuffer { buffer: *buffer, format: convert_format(*format, false) }
        } else {
            ViewCreation::Untyped
        },
    }
}

/// The creations of a set of views, in order.
pub fn view_creations(sources: &Vec<ViewSource>) -> (r: Vec<ViewCreation>)
    requires
        forall|i: int| 0 <= i < sources@.len() ==> view_source_ok(#[trigger] sources@[i]),
    ensures
        r@ == sources@.map_values(|s: ViewSource| spec_view_creation(s)),
{
    let mut r: Vec<ViewCreation> = Vec::new();
    let mut i: usize = 0;
    while i < sources.len()
        invariant
            i <= sources@.len(),
            forall|k: int| 0 <= k < sources@.len() ==> view_source_ok(#[trigger] sources@[k]),
            r@ == sources@.take(i as int).map_values(|s: ViewSource| spec_view_creation(s)),
        decreases sources@.len() - i,
    {
        r.push(view_creation(&sources[i]));
        i += 1;
        assert(r@ =~= sources@.take(i as int).map_values(|s: ViewSource| spec_view_creation(s)));
    }
    assert(sources@.take(i as int) =~= sources@);
    r
}

/// The binding of a view once its object was created (`created`, for a
/// view that has one): texture views hold their image view, typed buffer
/// views their buffer view, and a view holds 0 for an object it lacks.
pub open spec fn spec_view_binding(s: ViewSource, created: u64) -> ShaderViewBinding {
    match s {
        ViewSource::TextureSrv { resource, default_state, .. } => ShaderViewBinding {
            resource,
            kind: ViewResource::Texture { default_state },
            image_view: created,
            buffer_view: 0,
        },
        ViewSource::TextureUav { resource, default_state, .. } => ShaderViewBinding {
            resource,
            kind: ViewResource::Texture { default_state },
            image_view: created,
            buffer_view: 0,
        },
        ViewSource::Buffer { resource, buffer, size, format } => ShaderViewBinding {
            resource,
            kind: ViewResource::Buffer { buffer, size },
            image_view: 0,
            buffer_view: if spec_convert_format(format) != vulkan::FORMAT_UNDEFINED { created } else { 0 },
        },
    }
}

/// The bindings of a set of views, each with the object created for it.
pub fn view_bindings(sources: &Vec<ViewSource>, created: &Vec<u64>) -> (r: Vec<ShaderViewBinding>)
    requires
        created@.len() == sources@.len(),
    ensures
        r@ == Seq::new(sources@.len(), |i: int| spec_view_binding(sources@[i], created@[i])),
{
    let mut r: Vec<ShaderViewBinding> = Vec::new();
    let mut i: usize = 0;
    while i < sources.len()
        invariant
            i <= sources@.len(),
            created@.len() == sources@.len(),
            r@ == Seq::new(i as nat, |k: int| spec_view_binding(sources@[k], created@[k])),
        decreases sources@.len() - i,
    {
        let b = match &sources[i] {
            ViewSource::TextureSrv { resource, default_state, .. } => ShaderViewBinding {
                resource: *resource,
                kind: ViewResource::Texture { default_state: *default_state },
                image_view: created[i],
                buffer_view: 0,
            },
            ViewSource::TextureUav { resource, default_state, .. } => ShaderViewBinding {
                resource: *resource,
                kind: ViewResource::Texture { default_state: *default_state },
                image_view: created[i],
                buffer_view: 0,
            },
            ViewSource::Buffer { resource, buffer, size, format } => ShaderViewBinding {
                resource: *resource,
                kind: ViewResource::Buffer { buffer: *buffer, size: *size },
                image_view: 0,
                buffer_view: if buffer_view_needed(*format) { created[i] } else { 0 },
            },
        };
        r.push(b);
        i += 1;
        assert(r@ =~= Seq::new(i as nat, |k: int| spec_view_binding(sources@[k], created@[k])));
    }
    r
}

/// The backend's record of a shader view set: the bindings of its shader
/// resource views and of its unordered access views, in order, and the
/// descriptor sets cached on it, none at first.
pub struct ShaderViewsRecord {
    pub srvs: Vec<ShaderViewBinding>,
    pub uavs: Vec<ShaderViewBinding>,
    pub cached_descriptor_sets: Vec<CachedDescriptorSet>,
}

/// The record of a new shader view set, from its views and the objects
/// created for them.
pub fn shader_views_record(srvs: &Vec<ViewSource>, srv_created: &Vec<u64>, uavs: &Vec<ViewSource>, uav_created: &Vec<u64>) -> (r: ShaderViewsRecord)
    requires
        srv_created@.len() == srvs@.len(),
        uav_created@.len() == uavs@.len(),
    ensures
        r.srvs@ == Seq::new(srvs@.len(), |i: int| spec_view_binding(srvs@[i], srv_created@[i])),
        r.uavs@ == Seq::new(uavs@.len(), |i: int| spec_view_binding(uavs@[i], uav_created@[i])),
        r.cached_descriptor_sets@.len() == 0,
{
    ShaderViewsRecord {
        srvs: view_bindings(srvs, srv_created),
        uavs: view_bindings(uavs, uav_created),
        cached_descriptor_sets: Vec::new(),
    }
}

// ---------------------------------------------------------------------
// Destroying resources

/// The Vulkan objects a resource owns, by kind of resource.
#[derive(Clone, Debug)]
pub enum ResourceObjects {
    SwapChain { acquire_image_semaphore: u64, render_done_semaphore: u64, swap_chain: u64, surface: u64 },
    Buffer { buffer: u64 },
    /// A texture; `allocated` when its memory came from the allocator (swap
    /// chain images did not).
    Texture { image: u64, allocated: bool },
    SamplerState { sampler: u64 },
    Shader { module: u64 },
    /// Shader views: the descriptor pools of their cached sets, and per
    /// view its image view and buffer view (0 where it has none).
    ShaderViews { descriptor_pools: Vec<u64>, srvs: Vec<(u64, u64)>, uavs: Vec<(u64, u64)> },
    GraphicsPipelineState { pipeline: u64, static_samplers: Vec<u64>, set_layouts: Vec<u64>, pipeline_layout: u64 },
    ComputePipelineState { pipeline: u64, static_samplers: Vec<u64>, set_layouts: Vec<u64>, pipeline_layout: u64 },
    DrawBindingSet,
    FrameBindingSet { image_views: Vec<u64> },
    RenderPass { frame_buffer: u64, render_pass: u64 },
    CommandList,
    Fence { fence: u64 },
}

/// One release of a Vulkan object.
#[derive(Clone, Copy, Debug, PartialEq, Eq, Structural)]
pub enum DestroyAction {
    Semaphore(u64),
    SwapChain(u64),
    Surface(u64),
    AllocatedBuffer(u64),
    AllocatedImage(u64),
    Image(u64),
    Sampler(u64),
    ShaderModule(u64),
    DescriptorPool(u64),
    ImageView(u64),
    BufferView(u64),
    Pipeline(u64),
    DescriptorSetLayout(u64),
    PipelineLayout(u64),
    Framebuffer(u64),
    RenderPass(u64),
    Fence(u64),
}

/// Releases of the views of a shader view set: for each view its image
/// view, then its buffer view, where it has them.
pub open spec fn view_releases(views: Seq<(u64, u64)>) -> Seq<DestroyAction>
    decreases views.len(),
{
    if views.len() == 0 {
        Seq::empty()
    } else {
        let (image_view, buffer_view) = views.last();
        view_releases(views.drop_last())
            + (if image_view != 0 { seq![DestroyAction::ImageView(image_view)] } else { Seq::empty() })
            + (if buffer_view != 0 { seq![DestroyAction::BufferView(buffer_view)] } else { Seq::empty() })
    }
}

/// Releases of a pipeline: the pipeline, its static samplers, its set
/// layouts, then its layout.
pub open spec fn pipeline_releases(pipeline: u64, samplers: Seq<u64>, layouts: Seq<u64>, pipeline_layout: u64) -> Seq<DestroyAction> {
    seq![DestroyAction::Pipeline(pipeline)]
        + samplers.map_values(|x: u64| DestroyAction::Sampler(x))
        + layouts.map_values(|x: u64| DestroyAction::DescriptorSetLayout(x))
        + seq![DestroyAction::PipelineLayout(pipeline_layout)]
}

/// What destroying a resource releases, in order.
pub open spec fn spec_destroy_plan(r: ResourceObjects) -> Seq<DestroyAction> {
    match r {
        ResourceObjects::SwapChain { acquire_image_semaphore, render_done_semaphore, swap_chain, surface } => seq![
            DestroyAction::Semaphore(acquire_image_semaphore),
            DestroyAction::Semaphore(render_done_semaphore),
            DestroyAction::SwapChain(swap_chain),
            DestroyAction::Surface(surface),
        ],
        ResourceObjects::Buffer { buffer } => seq![DestroyAction::AllocatedBuffer(buffer)],
        ResourceObjects::Texture { image, allocated } => if allocated {
            seq![DestroyAction::AllocatedImage(image)]
        } else {
            seq![DestroyAction::Image(image)]
        },
        ResourceObjects::SamplerState { sampler } => seq![DestroyAction::Sampler(sampler)],
        ResourceObjects::Shader { module } => seq![DestroyAction::ShaderModule(module)],
        ResourceObjects::ShaderViews { descriptor_pools, srvs, uavs } =>
            descriptor_pools@.map_values(|x: u64| DestroyAction::DescriptorPool(x))
                + view_releases(srvs@) + view_releases(uavs@),
        ResourceObjects::GraphicsPipelineState { pipeline, static_samplers, set_layouts, pipeline_layout } =>
            pipeline_releases(pipeline, static_samplers@, set_layouts@, pipeline_layout),
        ResourceObjects::ComputePipelineState { pipeline, static_samplers, set_layouts, pipeline_layout } =>
            pipeline_releases(pipeline, static_samplers@, set_layouts@, pipeline_layout),
        ResourceObjects::DrawBindingSet => Seq::empty(),
        ResourceObjects::FrameBindingSet { image_views } => image_views@.map_values(|x: u64| DestroyAction::ImageView(x)),
        ResourceObjects::RenderPass { frame_buffer, render_pass } => seq![
            DestroyAction::Framebuffer(frame_buffer),
            DestroyAction::RenderPass(render_pass),
        ],
        ResourceObjects::CommandList => Seq::empty(),
        ResourceObjects::Fence { fence } => seq![DestroyAction::Fence(fence)],
    }
}

/// Append one release per handle.
fn push_releases(out: &mut Vec<DestroyAction>, handles: &Vec<u64>, kind: u8)
    requires
        kind <= 3,
    ensures
        final(out)@ == old(out)@ + handles@.map_values(|x: u64| release_of(kind, x)),
{
    let mut i: usize = 0;
    while i < handles.len()
        invariant
            i <= handles@.len(),
            kind <= 3,
            out@ == old(out)@ + handles@.take(i as int).map_values(|x: u64| release_of(kind, x)),
        decreases handles@.len() - i,
    {
        let h = handles[i];
        let action = if kind == 0 {
            DestroyAction::DescriptorPool(h)
        } else if kind == 1 {
            DestroyAction::Sampler(h)
        } else if kind == 2 {
            DestroyAction::DescriptorSetLayout(h)
        } else {
            DestroyAction::ImageView(h)
        };
        out.push(action);
        i += 1;
        assert(out@ =~= old(out)@ + handles@.take(i as int).map_values(|x: u64| release_of(kind, x)));
    }
    assert(handles@.take(i as int) =~= handles@);
}

/// The release of a handle of one of the listed kinds: descriptor pool,
/// sampler, set layout or image view.
pub open spec fn release_of(kind: u8, x: u64) -> DestroyAction {
    if kind == 0 {
        DestroyAction::DescriptorPool(x)
    } else if kind == 1 {
        DestroyAction::Sampler(x)
    } else if kind == 2 {
        DestroyAction::DescriptorSetLayout(x)
    } else {
        DestroyAction::ImageView(x)
    }
}

/// Append the releases of a list of views.
fn push_view_releases(out: &mut Vec<DestroyAction>, views: &Vec<(u64, u64)>)
    ensures
        final(out)@ == old(out)@ + view_releases(views@),
{
    let mut i: usize = 0;
    while i < views.len()
        invariant
            i <= views@.len(),
            out@ == old(out)@ + view_releases(views@.take(i as int)),
        decreases views@.len() - i,
    {
        proof {
            assert(views@.take(i + 1).drop_last() =~= views@.take(i as int));
        }
        let (image_view, buffer_view) = views[i];
        let ghost before = out@;
        if image_view != 0 {
            out.push(DestroyAction::ImageView(image_view));
        }
        if buffer_view != 0 {
            out.push(DestroyAction::BufferView(buffer_view));
        }
        i += 1;
        proof {
            let w = views@.take(i as int);
            assert(w.last() == (image_view, buffer_view));
            assert(out@ =~= old(out)@ + view_releases(w));
        }
    }
    assert(views@.take(i as int) =~= views@);
}

/// The releases of destroying a resource, in order.
pub fn destroy_plan(r: &ResourceObjects) -> (out: Vec<DestroyAction>)
    ensures
        out@ == spec_destroy_plan(*r),
{
    let mut out: Vec<DestroyAction> = Vec::new();
    match r {
        ResourceObjects::SwapChain { acquire_image_semaphore, render_done_semaphore, swap_chain, surface } => {
            out.push(DestroyAction::Semaphore(*acquire_image_semaphore));
            out.push(DestroyAction::Semaphore(*render_done_semaphore));
            out.push(DestroyAction::SwapChain(*swap_chain));
            out.push(DestroyAction::Surface(*surface));
        },
        ResourceObjects::Buffer { buffer } => {
            out.push(DestroyAction::AllocatedBuffer(*buffer));
        },
        ResourceObjects::Texture { image, allocated } => {
            if *allocated {
                out.push(DestroyAction::AllocatedImage(*image));
            } else {
                out.push(DestroyAction::Image(*image));
            }
        },
        ResourceObjects::SamplerState { sampler } => {
            out.push(DestroyAction::Sampler(*sampler));
        },
        ResourceObjects::Shader { module } => {
            out.push(DestroyAction::ShaderModule(*module));
        },
        ResourceObjects::ShaderViews { descriptor_pools, srvs, uavs } => {
            push_releases(&mut out, descriptor_pools, 0);
            push_view_releases(&mut out, srvs);
            push_view_releases(&mut out, uavs);
            assert(descriptor_pools@.map_values(|x: u64| release_of(0, x)) =~= descriptor_pools@.map_values(|x: u64| DestroyAction::DescriptorPool(x)));
        },
        ResourceObjects::GraphicsPipelineState { pipeline, static_samplers, set_layouts, pipeline_layout }
        | ResourceObjects::ComputePipelineState { pipeline, static_samplers, set_layouts, pipeline_layout } => {
            out.push(DestroyAction::Pipeline(*pipeline));
            push_releases(&mut out, static_samplers, 1);
            push_releases(&mut out, set_layouts, 2);
            out.push(DestroyAction::PipelineLayout(*pipeline_layout));
            assert(static_samplers@.map_values(|x: u64| release_of(1, x)) =~= static_samplers@.map_values(|x: u64| DestroyAction::Sampler(x)));
            assert(set_layouts@.map_values(|x: u64| release_of(2, x)) =~= set_layouts@.map_values(|x: u64| DestroyAction::DescriptorSetLayout(x)));
            assert(out@ =~= pipeline_releases(*pipeline, static_samplers@, set_layouts@, *pipeline_layout));
        },
        ResourceObjects::DrawBindingSet => {},
        ResourceObjects::FrameBindingSet { image_views } => {
            push_releases(&mut out, image_views, 3);
            assert(image_views@.map_values(|x: u64| release_of(3, x)) =~= image_views@.map_values(|x: u64| DestroyAction::ImageView(x)));
        },
        ResourceObjects::RenderPass { frame_buffer, render_pass } => {
            out.push(DestroyAction::Framebuffer(*frame_buffer));
            out.push(DestroyAction::RenderPass(*render_pass));
        },
        ResourceObjects::CommandList => {},
        ResourceObjects::Fence { fence } => {
            out.push(DestroyAction::Fence(*fence));
        },
    }
    proof {
        assert(out@ =~= spec_destroy_plan(*r));
    }
    out
}

} // verus!
