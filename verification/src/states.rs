//! Resource states and the image layouts and access types they imply.

use vstd::prelude::*;
use crate::vulkan;

verus! {

/// Resource states (a bit set; `COMMON` is the empty set).
#[derive(Clone, Copy, Debug, PartialEq, Eq, Structural)]
pub struct RenderResourceStates {
    pub bits: u32,
}

impl RenderResourceStates {
    pub const COMMON: u32 = 0;
    pub const VERTEX_AND_CONSTANT_BUFFER: u32 = 0x1;
    pub const INDEX_BUFFER: u32 = 0x2;
    pub const RENDER_TARGET: u32 = 0x4;
    pub const UNORDERED_ACCESS: u32 = 0x8;
    pub const DEPTH_WRITE: u32 = 0x10;
    pub const DEPTH_READ: u32 = 0x20;
    pub const NON_PIXEL_SHADER_RESOURCE: u32 = 0x40;
    pub const PIXEL_SHADER_RESOURCE: u32 = 0x80;
    pub const STREAM_OUT: u32 = 0x100;
    pub const INDIRECT_ARGUMENT: u32 = 0x200;
    pub const COPY_DEST: u32 = 0x400;
    pub const COPY_SOURCE: u32 = 0x800;

    pub open spec fn spec_contains(self, state: u32) -> bool {
        self.bits & state == state
    }

    /// Whether every bit of `state` is set.
    #[verifier::when_used_as_spec(spec_contains)]
    pub fn contains(self, state: u32) -> (r: bool)
        ensures
            r == self.spec_contains(state),
    {
        self.bits & state == state
    }
}

/// Kinds of access to a resource, as the synchronization helper knows them.
#[derive(Clone, Copy, Debug, PartialEq, Eq, Structural)]
pub enum AccessType {
    Nothing,
    General,
    ColorAttachmentWrite,
    DepthStencilAttachmentWrite,
    DepthStencilAttachmentRead,
    AnyShaderReadOther,
    AnyShaderReadSampledImageOrUniformTexelBuffer,
    TransferWrite,
    TransferRead,
    IndexBuffer,
    IndirectBuffer,
    Present,
}

/// Image layouts as the synchronization helper knows them.
#[derive(Clone, Copy, Debug, PartialEq, Eq, Structural)]
pub enum BarrierLayout {
    General,
    Optimal,
}

/// States that only buffers can be in.
pub open spec fn has_buffer_only_state(states: RenderResourceStates) -> bool {
    ||| states.spec_contains(RenderResourceStates::VERTEX_AND_CONSTANT_BUFFER)
    ||| states.spec_contains(RenderResourceStates::INDEX_BUFFER)
    ||| states.spec_contains(RenderResourceStates::STREAM_OUT)
    ||| states.spec_contains(RenderResourceStates::INDIRECT_ARGUMENT)
}

/// States that only images can be in.
pub open spec fn has_image_only_state(states: RenderResourceStates) -> bool {
    ||| states.spec_contains(RenderResourceStates::RENDER_TARGET)
    ||| states.spec_contains(RenderResourceStates::DEPTH_WRITE)
    ||| states.spec_contains(RenderResourceStates::DEPTH_READ)
}

pub open spec fn is_shader_resource(states: RenderResourceStates) -> bool {
    states.spec_contains(RenderResourceStates::PIXEL_SHADER_RESOURCE)
        || states.spec_contains(RenderResourceStates::NON_PIXEL_SHADER_RESOURCE)
}

/// Image layout for an image in the given states: the first matching rule
/// of common, render target, depth write, depth read, shader resource,
/// copy destination, copy source decides; anything else is general.
pub open spec fn spec_get_image_layout(states: RenderResourceStates) -> i32 {
    if states.bits == RenderResourceStates::COMMON {
        vulkan::IMAGE_LAYOUT_GENERAL
    } else if states.spec_contains(RenderResourceStates::RENDER_TARGET) {
        vulkan::IMAGE_LAYOUT_COLOR_ATTACHMENT_OPTIMAL
    } else if states.spec_contains(RenderResourceStates::DEPTH_WRITE) {
        vulkan::IMAGE_LAYOUT_DEPTH_STENCIL_ATTACHMENT_OPTIMAL
    } else if states.spec_contains(RenderResourceStates::DEPTH_READ) {
        vulkan::IMAGE_LAYOUT_DEPTH_STENCIL_READ_ONLY_OPTIMAL
    } else if is_shader_resource(states) {
        vulkan::IMAGE_LAYOUT_GENERAL
    } else if states.spec_contains(RenderResourceStates::COPY_DEST) {
        vulkan::IMAGE_LAYOUT_TRANSFER_DST_OPTIMAL
    } else if states.spec_contains(RenderResourceStates::COPY_SOURCE) {
        vulkan::IMAGE_LAYOUT_TRANSFER_SRC_OPTIMAL
    } else {
        vulkan::IMAGE_LAYOUT_GENERAL
    }
}

/// Image layout of an image in the given states. Images are never in a
/// buffer-only state.
pub fn get_image_layout(states: RenderResourceStates) -> (r: i32)
    requires
        !has_buffer_only_state(states),
    ensures
        r == spec_get_image_layout(states),
{
    if states.bits == RenderResourceStates::COMMON {
        return vulkan::IMAGE_LAYOUT_GENERAL;
    }
    if states.contains(RenderResourceStates::RENDER_TARGET) {
        return vulkan::IMAGE_LAYOUT_COLOR_ATTACHMENT_OPTIMAL;
    }
    if states.contains(RenderResourceStates::DEPTH_WRITE) {
        return vulkan::IMAGE_LAYOUT_DEPTH_STENCIL_ATTACHMENT_OPTIMAL;
    }
    if states.contains(RenderResourceStates::DEPTH_READ) {
        return vulkan::IMAGE_LAYOUT_DEPTH_STENCIL_READ_ONLY_OPTIMAL;
    }
    if states.contains(RenderResourceStates::PIXEL_SHADER_RESOURCE)
        || states.contains(RenderResourceStates::NON_PIXEL_SHADER_RESOURCE)
    {
        return vulkan::IMAGE_LAYOUT_GENERAL;
    }
    if states.contains(RenderResourceStates::COPY_DEST) {
        return vulkan::IMAGE_LAYOUT_TRANSFER_DST_OPTIMAL;
    }
    if states.contains(RenderResourceStates::COPY_SOURCE) {
        return vulkan::IMAGE_LAYOUT_TRANSFER_SRC_OPTIMAL;
    }
    vulkan::IMAGE_LAYOUT_GENERAL
}

/// Access type for an image in the given states, by the same priority as
/// the layout; common and unordered-access states are general access.
pub open spec fn spec_get_image_access_type(states: RenderResourceStates) -> AccessType {
    if states.bits == RenderResourceStates::COMMON || states.bits == RenderResourceStates::UNORDERED_ACCESS {
        AccessType::General
    } else if states.spec_contains(RenderResourceStates::RENDER_TARGET) {
        AccessType::ColorAttachmentWrite
    } else if states.spec_contains(RenderResourceStates::DEPTH_WRITE) {
        AccessType::DepthStencilAttachmentWrite
    } else if states.spec_contains(RenderResourceStates::DEPTH_READ) {
        AccessType::DepthStencilAttachmentRead
    } else if is_shader_resource(states) {
        AccessType::AnyShaderReadOther
    } else if states.spec_contains(RenderResourceStates::COPY_DEST) {
        AccessType::TransferWrite
    } else if states.spec_contains(RenderResourceStates::COPY_SOURCE) {
        AccessType::TransferRead
    } else {
        AccessType::General
    }
}

pub fn get_image_access_type(states: RenderResourceStates) -> (r: AccessType)
    requires
        !has_buffer_only_state(states),
    ensures
        r == spec_get_image_access_type(states),
{
    if states.bits == RenderResourceStates::COMMON || states.bits == RenderResourceStates::UNORDERED_ACCESS {
        return AccessType::General;
    }
    if states.contains(RenderResourceStates::RENDER_TARGET) {
        return AccessType::ColorAttachmentWrite;
    }
    if states.contains(RenderResourceStates::DEPTH_WRITE) {
        return AccessType::DepthStencilAttachmentWrite;
    }
    if states.contains(RenderResourceStates::DEPTH_READ) {
        return AccessType::DepthStencilAttachmentRead;
    }
    if states.contains(RenderResourceStates::PIXEL_SHADER_RESOURCE)
        || states.contains(RenderResourceStates::NON_PIXEL_SHADER_RESOURCE)
    {
        return AccessType::AnyShaderReadOther;
    }
    if states.contains(RenderResourceStates::COPY_DEST) {
        return AccessType::TransferWrite;
    }
    if states.contains(RenderResourceStates::COPY_SOURCE) {
        return AccessType::TransferRead;
    }
    AccessType::General
}

/// Access type for a buffer in the given states: general for common,
/// unordered access, vertex/constant buffers and shader resources; index
/// and indirect buffers and copies have their own access types.
pub open spec fn spec_get_buffer_access_type(states: RenderResourceStates) -> AccessType {
    if states.bits == RenderResourceStates::COMMON {
        AccessType::General
    } else if states.spec_contains(RenderResourceStates::UNORDERED_ACCESS) {
        AccessType::General
    } else if states.spec_contains(RenderResourceStates::VERTEX_AND_CONSTANT_BUFFER) {
        AccessType::General
    } else if states.spec_contains(RenderResourceStates::INDEX_BUFFER) {
        AccessType::IndexBuffer
    } else if states.spec_contains(RenderResourceStates::INDIRECT_ARGUMENT) {
        AccessType::IndirectBuffer
    } else if is_shader_resource(states) {
        AccessType::General
    } else if states.spec_contains(RenderResourceStates::COPY_DEST) {
        AccessType::TransferWrite
    } else if states.spec_contains(RenderResourceStates::COPY_SOURCE) {
        AccessType::TransferRead
    } else {
        AccessType::General
    }
}

/// Access type of a buffer in the given states. Buffers are never in an
/// image-only state, and stream output is unsupported.
pub fn get_buffer_access_type(states: RenderResourceStates) -> (r: AccessType)
    requires
        !states.spec_contains(RenderResourceStates::STREAM_OUT),
        !has_image_only_state(states),
    ensures
        r == spec_get_buffer_access_type(states),
{
    if states.bits == RenderResourceStates::COMMON {
        return AccessType::General;
    }
    if states.contains(RenderResourceStates::UNORDERED_ACCESS) {
        return AccessType::General;
    }
    if states.contains(RenderResourceStates::VERTEX_AND_CONSTANT_BUFFER) {
        return AccessType::General;
    }
    if states.contains(RenderResourceStates::INDEX_BUFFER) {
        return AccessType::IndexBuffer;
    }
    if states.contains(RenderResourceStates::INDIRECT_ARGUMENT) {
        return AccessType::IndirectBuffer;
    }
    if states.contains(RenderResourceStates::PIXEL_SHADER_RESOURCE)
        || states.contains(RenderResourceStates::NON_PIXEL_SHADER_RESOURCE)
    {
        return AccessType::General;
    }
    if states.contains(RenderResourceStates::COPY_DEST) {
        return AccessType::TransferWrite;
    }
    if states.contains(RenderResourceStates::COPY_SOURCE) {
        return AccessType::TransferRead;
    }
    AccessType::General
}

/// The layout a barrier uses for an access: general access keeps the
/// general layout, every other access uses the optimal one.
pub open spec fn spec_barrier_layout(access: AccessType) -> BarrierLayout {
    if access == AccessType::General { BarrierLayout::General } else { BarrierLayout::Optimal }
}

pub fn barrier_layout(access: AccessType) -> (r: BarrierLayout)
    ensures
        r == spec_barrier_layout(access),
{
    match access {
        AccessType::General => BarrierLayout::General,
        _ => BarrierLayout::Optimal,
    }
}

/// Shader stages of the renderer.
#[derive(Clone, Copy, Debug, PartialEq, Eq, Structural)]
pub enum RenderShaderType {
    Vertex,
    Geometry,
    Hull,
    Domain,
    Pixel,
    Compute,
}

pub open spec fn spec_get_shader_stage(shader_type: RenderShaderType) -> u32 {
    match shader_type {
        RenderShaderType::Vertex => vulkan::SHADER_STAGE_VERTEX,
        RenderShaderType::Geometry => vulkan::SHADER_STAGE_GEOMETRY,
        RenderShaderType::Hull => vulkan::SHADER_STAGE_TESSELLATION_CONTROL,
        RenderShaderType::Domain => vulkan::SHADER_STAGE_TESSELLATION_EVALUATION,
        RenderShaderType::Pixel => vulkan::SHADER_STAGE_FRAGMENT,
        RenderShaderType::Compute => vulkan::SHADER_STAGE_COMPUTE,
    }
}

pub fn get_shader_stage(shader_type: RenderShaderType) -> (r: u32)
    ensures
        r == spec_get_shader_stage(shader_type),
{
    match shader_type {
        RenderShaderType::Vertex => vulkan::SHADER_STAGE_VERTEX,
        RenderShaderType::Geometry => vulkan::SHADER_STAGE_GEOMETRY,
        RenderShaderType::Hull => vulkan::SHADER_STAGE_TESSELLATION_CONTROL,
        RenderShaderType::Domain => vulkan::SHADER_STAGE_TESSELLATION_EVALUATION,
        RenderShaderType::Pixel => vulkan::SHADER_STAGE_FRAGMENT,
        RenderShaderType::Compute => vulkan::SHADER_STAGE_COMPUTE,
    }
}

/// The single resource states, each one bit.
pub open spec fn is_single_state_bit(c: u32) -> bool {
    ||| c == 0x1u32
    ||| c == 0x2u32
    ||| c == 0x4u32
    ||| c == 0x8u32
    ||| c == 0x10u32
    ||| c == 0x20u32
    ||| c == 0x40u32
    ||| c == 0x80u32
    ||| c == 0x100u32
    ||| c == 0x200u32
    ||| c == 0x400u32
    ||| c == 0x800u32
}

/// One single state contains another exactly when they are the same.
proof fn lemma_single_bits_contain(c: u32, m: u32)
    by (bit_vector)
    requires
        c == 0x1u32 || c == 0x2u32 || c == 0x4u32 || c == 0x8u32 || c == 0x10u32 || c == 0x20u32
            || c == 0x40u32 || c == 0x80u32 || c == 0x100u32 || c == 0x200u32 || c == 0x400u32 || c == 0x800u32,
        m == 0x1u32 || m == 0x2u32 || m == 0x4u32 || m == 0x8u32 || m == 0x10u32 || m == 0x20u32
            || m == 0x40u32 || m == 0x80u32 || m == 0x100u32 || m == 0x200u32 || m == 0x400u32 || m == 0x800u32,
    ensures
        (c & m == m) == (c == m),
{
}

proof fn lemma_single_state(c: u32)
    requires
        is_single_state_bit(c),
    ensures
        forall|m: u32| is_single_state_bit(m) ==> ((#[trigger] (c & m) == m) == (c == m)),
{
    assert forall|m: u32| is_single_state_bit(m) implies ((#[trigger] (c & m) == m) == (c == m)) by {
        lemma_single_bits_contain(c, m);
    }
}

/// What a resource resting in a single state is laid out and accessed as:
/// an image in the common, unordered access or shader resource state is in
/// the general layout, a render target in the color attachment layout, a
/// depth target written or read in the depth-stencil attachment or
/// read-only layout, a copy destination or source in the transfer
/// destination or source layout, each with the matching access; a buffer
/// is accessed as an index buffer, an indirect buffer, or by a transfer
/// write or read in the index, indirect argument and copy states, and
/// generally otherwise.
pub proof fn lemma_single_state_tables()
    ensures
        spec_get_image_layout(RenderResourceStates { bits: RenderResourceStates::COMMON }) == vulkan::IMAGE_LAYOUT_GENERAL,
        spec_get_image_layout(RenderResourceStates { bits: RenderResourceStates::UNORDERED_ACCESS }) == vulkan::IMAGE_LAYOUT_GENERAL,
        spec_get_image_layout(RenderResourceStates { bits: RenderResourceStates::RENDER_TARGET }) == vulkan::IMAGE_LAYOUT_COLOR_ATTACHMENT_OPTIMAL,
        spec_get_image_layout(RenderResourceStates { bits: RenderResourceStates::DEPTH_WRITE }) == vulkan::IMAGE_LAYOUT_DEPTH_STENCIL_ATTACHMENT_OPTIMAL,
        spec_get_image_layout(RenderResourceStates { bits: RenderResourceStates::DEPTH_READ }) == vulkan::IMAGE_LAYOUT_DEPTH_STENCIL_READ_ONLY_OPTIMAL,
        spec_get_image_layout(RenderResourceStates { bits: RenderResourceStates::PIXEL_SHADER_RESOURCE }) == vulkan::IMAGE_LAYOUT_GENERAL,
        spec_get_image_layout(RenderResourceStates { bits: RenderResourceStates::NON_PIXEL_SHADER_RESOURCE }) == vulkan::IMAGE_LAYOUT_GENERAL,
        spec_get_image_layout(RenderResourceStates { bits: RenderResourceStates::COPY_DEST }) == vulkan::IMAGE_LAYOUT_TRANSFER_DST_OPTIMAL,
        spec_get_image_layout(RenderResourceStates { bits: RenderResourceStates::COPY_SOURCE }) == vulkan::IMAGE_LAYOUT_TRANSFER_SRC_OPTIMAL,
        spec_get_image_access_type(RenderResourceStates { bits: RenderResourceStates::COMMON }) == AccessType::General,
        spec_get_image_access_type(RenderResourceStates { bits: RenderResourceStates::UNORDERED_ACCESS }) == AccessType::General,
        spec_get_image_access_type(RenderResourceStates { bits: RenderResourceStates::RENDER_TARGET }) == AccessType::ColorAttachmentWrite,
        spec_get_image_access_type(RenderResourceStates { bits: RenderResourceStates::DEPTH_WRITE }) == AccessType::DepthStencilAttachmentWrite,
        spec_get_image_access_type(RenderResourceStates { bits: RenderResourceStates::DEPTH_READ }) == AccessType::DepthStencilAttachmentRead,
        spec_get_image_access_type(RenderResourceStates { bits: RenderResourceStates::PIXEL_SHADER_RESOURCE }) == AccessType::AnyShaderReadOther,
        spec_get_image_access_type(RenderResourceStates { bits: RenderResourceStates::NON_PIXEL_SHADER_RESOURCE }) == AccessType::AnyShaderReadOther,
        spec_get_image_access_type(RenderResourceStates { bits: RenderResourceStates::COPY_DEST }) == AccessType::TransferWrite,
        spec_get_image_access_type(RenderResourceStates { bits: RenderResourceStates::COPY_SOURCE }) == AccessType::TransferRead,
        spec_get_buffer_access_type(RenderResourceStates { bits: RenderResourceStates::COMMON }) == AccessType::General,
        spec_get_buffer_access_type(RenderResourceStates { bits: RenderResourceStates::UNORDERED_ACCESS }) == AccessType::General,
        spec_get_buffer_access_type(RenderResourceStates { bits: RenderResourceStates::VERTEX_AND_CONSTANT_BUFFER }) == AccessType::General,
        spec_get_buffer_access_type(RenderResourceStates { bits: RenderResourceStates::INDEX_BUFFER }) == AccessType::IndexBuffer,
        spec_get_buffer_access_type(RenderResourceStates { bits: RenderResourceStates::INDIRECT_ARGUMENT }) == AccessType::IndirectBuffer,
        spec_get_buffer_access_type(RenderResourceStates { bits: RenderResourceStates::PIXEL_SHADER_RESOURCE }) == AccessType::General,
        spec_get_buffer_access_type(RenderResourceStates { bits: RenderResourceStates::NON_PIXEL_SHADER_RESOURCE }) == AccessType::General,
        spec_get_buffer_access_type(RenderResourceStates { bits: RenderResourceStates::COPY_DEST }) == AccessType::TransferWrite,
        spec_get_buffer_access_type(RenderResourceStates { bits: RenderResourceStates::COPY_SOURCE }) == AccessType::TransferRead,
{
    lemma_single_state(0x1u32);
    lemma_single_state(0x2u32);
    lemma_single_state(0x4u32);
    lemma_single_state(0x8u32);
    lemma_single_state(0x10u32);
    lemma_single_state(0x20u32);
    lemma_single_state(0x40u32);
    lemma_single_state(0x80u32);
    lemma_single_state(0x200u32);
    lemma_single_state(0x400u32);
    lemma_single_state(0x800u32);
    assert(is_single_state_bit(0x1u32) && is_single_state_bit(0x2u32) && is_single_state_bit(0x4u32)
        && is_single_state_bit(0x8u32) && is_single_state_bit(0x10u32) && is_single_state_bit(0x20u32)
        && is_single_state_bit(0x40u32) && is_single_state_bit(0x80u32) && is_single_state_bit(0x200u32)
        && is_single_state_bit(0x400u32) && is_single_state_bit(0x800u32));
}

/// An image layout and the access type chosen for the same states agree:
/// every state that maps to an attachment or transfer layout maps to the
/// matching access, and the general layout goes with general or shader-read
/// access.
pub proof fn lemma_layout_access_agree(states: RenderResourceStates)
    requires
        !has_buffer_only_state(states),
    ensures
        spec_get_image_layout(states) == vulkan::IMAGE_LAYOUT_COLOR_ATTACHMENT_OPTIMAL
            <==> spec_get_image_access_type(states) == AccessType::ColorAttachmentWrite,
        spec_get_image_layout(states) == vulkan::IMAGE_LAYOUT_DEPTH_STENCIL_ATTACHMENT_OPTIMAL
            <==> spec_get_image_access_type(states) == AccessType::DepthStencilAttachmentWrite,
        spec_get_image_layout(states) == vulkan::IMAGE_LAYOUT_DEPTH_STENCIL_READ_ONLY_OPTIMAL
            <==> spec_get_image_access_type(states) == AccessType::DepthStencilAttachmentRead,
        spec_get_image_layout(states) == vulkan::IMAGE_LAYOUT_TRANSFER_DST_OPTIMAL
            <==> spec_get_image_access_type(states) == AccessType::TransferWrite,
        spec_get_image_layout(states) == vulkan::IMAGE_LAYOUT_TRANSFER_SRC_OPTIMAL
            <==> spec_get_image_access_type(states) == AccessType::TransferRead,
{
    let b = states.bits;
    if b == RenderResourceStates::UNORDERED_ACCESS {
        assert(b & 0x4u32 != 0x4u32 && b & 0x10u32 != 0x10u32 && b & 0x20u32 != 0x20u32
            && b & 0x40u32 != 0x40u32 && b & 0x80u32 != 0x80u32
            && b & 0x400u32 != 0x400u32 && b & 0x800u32 != 0x800u32) by (bit_vector)
            requires b == 8u32;
    }
}

} // verus!
