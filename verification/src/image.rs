//! Image kinds, texture descriptions and the image-creation parameters
//! derived from them.

use vstd::prelude::*;
use crate::vulkan;
use crate::format::{RenderFormat, convert_format, spec_convert_format};

verus! {

/// Bind flags of a resource (a bit set).
#[derive(Clone, Copy, Debug, PartialEq, Eq, Structural)]
pub struct RenderBindFlags {
    pub bits: u32,
}

impl RenderBindFlags {
    pub const NONE: u32 = 0;
    pub const VERTEX_BUFFER: u32 = 0x1;
    pub const INDEX_BUFFER: u32 = 0x2;
    pub const CONSTANT_BUFFER: u32 = 0x4;
    pub const INDIRECT_BUFFER: u32 = 0x8;
    pub const SHADER_RESOURCE: u32 = 0x10;
    pub const STREAM_OUTPUT: u32 = 0x20;
    pub const RENDER_TARGET: u32 = 0x40;
    pub const DEPTH_STENCIL: u32 = 0x80;
    pub const UNORDERED_ACCESS: u32 = 0x100;
    pub const CROSS_DEVICE: u32 = 0x200;

    pub open spec fn spec_contains(self, flag: u32) -> bool {
        self.bits & flag == flag
    }

    /// Whether every bit of `flag` is set.
    #[verifier::when_used_as_spec(spec_contains)]
    pub fn contains(self, flag: u32) -> (r: bool)
        ensures
            r == self.spec_contains(flag),
    {
        self.bits & flag == flag
    }
}

#[derive(Clone, Copy, Debug, PartialEq, Eq, Structural)]
pub enum Kind {
    D1(u32),
    D2 { width: u32, height: u32 },
    D3 { width: u32, height: u32, depth: u32 },
}

/// Extent of an image (`VkExtent3D`).
#[derive(Clone, Copy, Debug, PartialEq, Eq, Structural)]
pub struct Extent3D {
    pub width: u32,
    pub height: u32,
    pub depth: u32,
}

impl Kind {
    /// Get type of the image.
    pub fn image_type(self) -> (r: i32)
        ensures
            r == match self {
                Kind::D1(_) => vulkan::IMAGE_TYPE_TYPE_1D,
                Kind::D2 { .. } => vulkan::IMAGE_TYPE_TYPE_2D,
                Kind::D3 { .. } => vulkan::IMAGE_TYPE_TYPE_3D,
            },
    {
        match self {
            Kind::D1(_) => vulkan::IMAGE_TYPE_TYPE_1D,
            Kind::D2 { .. } => vulkan::IMAGE_TYPE_TYPE_2D,
            Kind::D3 { .. } => vulkan::IMAGE_TYPE_TYPE_3D,
        }
    }

    /// Get extent of the image; missing dimensions are 1.
    pub fn extent(self) -> (r: Extent3D)
        ensures
            r == match self {
                Kind::D1(size) => Extent3D { width: size, height: 1, depth: 1 },
                Kind::D2 { width, height } => Extent3D { width, height, depth: 1 },
                Kind::D3 { width, height, depth } => Extent3D { width, height, depth },
            },
    {
        match self {
            Kind::D1(size) => Extent3D { width: size, height: 1, depth: 1 },
            Kind::D2 { width, height } => Extent3D { width, height, depth: 1 },
            Kind::D3 { width, height, depth } => Extent3D { width, height, depth },
        }
    }
}

/// Dimension of a resource view.
#[derive(Clone, Copy, Debug, PartialEq, Eq, Structural)]
pub enum RenderViewDimension {
    Buffer,
    Tex1d,
    Tex1dArray,
    Tex2d,
    Tex2dArray,
    Tex3d,
    Cube,
    CubeArray,
}

/// Texture types.
#[derive(Clone, Copy, Debug, PartialEq, Eq, Structural)]
pub enum RenderTextureType {
    Tex1d,
    Tex1dArray,
    Tex2d,
    Tex2dArray,
    Tex3d,
    Cube,
    CubeArray,
}

pub open spec fn spec_view_dimension_to_view_type(dimension: RenderViewDimension) -> i32 {
    match dimension {
        RenderViewDimension::Tex1d => vulkan::IMAGE_VIEW_TYPE_TYPE_1D,
        RenderViewDimension::Tex1dArray => vulkan::IMAGE_VIEW_TYPE_TYPE_1D_ARRAY,
        RenderViewDimension::Tex2d => vulkan::IMAGE_VIEW_TYPE_TYPE_2D,
        RenderViewDimension::Tex2dArray => vulkan::IMAGE_VIEW_TYPE_TYPE_2D_ARRAY,
        RenderViewDimension::Tex3d => vulkan::IMAGE_VIEW_TYPE_TYPE_3D,
        RenderViewDimension::Cube => vulkan::IMAGE_VIEW_TYPE_CUBE,
        _ => vulkan::IMAGE_VIEW_TYPE_CUBE_ARRAY,
    }
}

/// The shape of an image view: how many dimensions it has, whether it is
/// an array, and whether its layers are cube faces.
pub open spec fn view_dimension_shape(dimension: RenderViewDimension) -> (int, bool, bool) {
    match dimension {
        RenderViewDimension::Buffer => (0, false, false),
        RenderViewDimension::Tex1d => (1, false, false),
        RenderViewDimension::Tex1dArray => (1, true, false),
        RenderViewDimension::Tex2d => (2, false, false),
        RenderViewDimension::Tex2dArray => (2, true, false),
        RenderViewDimension::Tex3d => (3, false, false),
        RenderViewDimension::Cube => (2, false, true),
        RenderViewDimension::CubeArray => (2, true, true),
    }
}

/// The shape of a texture, as `view_dimension_shape` gives it.
pub open spec fn texture_type_shape(texture_type: RenderTextureType) -> (int, bool, bool) {
    match texture_type {
        RenderTextureType::Tex1d => (1, false, false),
        RenderTextureType::Tex1dArray => (1, true, false),
        RenderTextureType::Tex2d => (2, false, false),
        RenderTextureType::Tex2dArray => (2, true, false),
        RenderTextureType::Tex3d => (3, false, false),
        RenderTextureType::Cube => (2, false, true),
        RenderTextureType::CubeArray => (2, true, true),
    }
}

/// The shape of a Vulkan image view type, by the numbers Vulkan gives them.
pub open spec fn vk_view_type_shape(view_type: int) -> Option<(int, bool, bool)> {
    if view_type == 0 { Some((1, false, false)) }
    else if view_type == 1 { Some((2, false, false)) }
    else if view_type == 2 { Some((3, false, false)) }
    else if view_type == 3 { Some((2, false, true)) }
    else if view_type == 4 { Some((1, true, false)) }
    else if view_type == 5 { Some((2, true, false)) }
    else if view_type == 6 { Some((2, true, true)) }
    else { None }
}

/// View dimensions and texture types become the Vulkan image view types of
/// the same shape.
pub proof fn lemma_view_type_shape(dimension: RenderViewDimension, texture_type: RenderTextureType)
    ensures
        dimension != RenderViewDimension::Buffer ==> vk_view_type_shape(spec_view_dimension_to_view_type(dimension) as int)
            == Some(view_dimension_shape(dimension)),
        vk_view_type_shape(spec_texture_type_to_view_type(texture_type) as int) == Some(texture_type_shape(texture_type)),
{
}

/// Image view type of a view dimension. Buffer views have no image view
/// type.
pub fn convert_view_dimension_to_view_type(dimension: RenderViewDimension) -> (r: i32)
    requires
        dimension != RenderViewDimension::Buffer,
    ensures
        r == spec_view_dimension_to_view_type(dimension),
        vk_view_type_shape(r as int) == Some(view_dimension_shape(dimension)),
{
    proof {
        lemma_view_type_shape(dimension, RenderTextureType::Tex2d);
    }
    match dimension {
        RenderViewDimension::Tex1d => vulkan::IMAGE_VIEW_TYPE_TYPE_1D,
        RenderViewDimension::Tex1dArray => vulkan::IMAGE_VIEW_TYPE_TYPE_1D_ARRAY,
        RenderViewDimension::Tex2d => vulkan::IMAGE_VIEW_TYPE_TYPE_2D,
        RenderViewDimension::Tex2dArray => vulkan::IMAGE_VIEW_TYPE_TYPE_2D_ARRAY,
        RenderViewDimension::Tex3d => vulkan::IMAGE_VIEW_TYPE_TYPE_3D,
        RenderViewDimension::Cube => vulkan::IMAGE_VIEW_TYPE_CUBE,
        _ => vulkan::IMAGE_VIEW_TYPE_CUBE_ARRAY,
    }
}

pub open spec fn spec_texture_type_to_view_type(texture_type: RenderTextureType) -> i32 {
    match texture_type {
        RenderTextureType::Tex1d => vulkan::IMAGE_VIEW_TYPE_TYPE_1D,
        RenderTextureType::Tex1dArray => vulkan::IMAGE_VIEW_TYPE_TYPE_1D_ARRAY,
        RenderTextureType::Tex2d => vulkan::IMAGE_VIEW_TYPE_TYPE_2D,
        RenderTextureType::Tex2dArray => vulkan::IMAGE_VIEW_TYPE_TYPE_2D_ARRAY,
        RenderTextureType::Tex3d => vulkan::IMAGE_VIEW_TYPE_TYPE_3D,
        RenderTextureType::Cube => vulkan::IMAGE_VIEW_TYPE_CUBE,
        RenderTextureType::CubeArray => vulkan::IMAGE_VIEW_TYPE_CUBE_ARRAY,
    }
}

pub fn convert_texture_type_to_view_type(texture_type: RenderTextureType) -> (r: i32)
    ensures
        r == spec_texture_type_to_view_type(texture_type),
        vk_view_type_shape(r as int) == Some(texture_type_shape(texture_type)),
{
    proof {
        lemma_view_type_shape(RenderViewDimension::Tex2d, texture_type);
    }
    match texture_type {
        RenderTextureType::Tex1d => vulkan::IMAGE_VIEW_TYPE_TYPE_1D,
        RenderTextureType::Tex1dArray => vulkan::IMAGE_VIEW_TYPE_TYPE_1D_ARRAY,
        RenderTextureType::Tex2d => vulkan::IMAGE_VIEW_TYPE_TYPE_2D,
        RenderTextureType::Tex2dArray => vulkan::IMAGE_VIEW_TYPE_TYPE_2D_ARRAY,
        RenderTextureType::Tex3d => vulkan::IMAGE_VIEW_TYPE_TYPE_3D,
        RenderTextureType::Cube => vulkan::IMAGE_VIEW_TYPE_CUBE,
        RenderTextureType::CubeArray => vulkan::IMAGE_VIEW_TYPE_CUBE_ARRAY,
    }
}

/// Description of a texture.
#[derive(Clone, Copy, Debug, PartialEq, Eq, Structural)]
pub struct RenderTextureDesc {
    pub texture_type: RenderTextureType,
    pub bind_flags: RenderBindFlags,
    pub format: RenderFormat,
    pub width: u32,
    pub height: u32,
    pub depth: u16,
    pub levels: u16,
    pub elements: u16,
}

/// Parameters of `vkCreateImage` derived from a texture description.
#[derive(Clone, Copy, Debug, PartialEq, Eq, Structural)]
pub struct ImageCreateInfo {
    pub flags: u32,
    pub image_type: i32,
    pub format: i32,
    pub extent: Extent3D,
    pub mip_levels: u32,
    pub array_layers: u32,
    pub samples: u32,
    pub tiling: i32,
    pub usage: u32,
    pub sharing_mode: i32,
    pub initial_layout: i32,
}

/// Cube textures use six faces per element.
pub open spec fn is_cube(texture_type: RenderTextureType) -> bool {
    texture_type == RenderTextureType::Cube || texture_type == RenderTextureType::CubeArray
}

/// Array layers of a texture: arrays use their element count, cubes six
/// faces (per element for cube arrays), other textures a single layer.
pub open spec fn spec_image_layers(desc: RenderTextureDesc) -> int {
    match desc.texture_type {
        RenderTextureType::Tex1dArray | RenderTextureType::Tex2dArray => desc.elements as int,
        RenderTextureType::Cube => 6,
        RenderTextureType::CubeArray => 6 * desc.elements,
        _ => 1,
    }
}

pub open spec fn spec_image_type(texture_type: RenderTextureType) -> i32 {
    match texture_type {
        RenderTextureType::Tex1d | RenderTextureType::Tex1dArray => vulkan::IMAGE_TYPE_TYPE_1D,
        RenderTextureType::Tex3d => vulkan::IMAGE_TYPE_TYPE_3D,
        _ => vulkan::IMAGE_TYPE_TYPE_2D,
    }
}

pub open spec fn spec_image_extent(desc: RenderTextureDesc) -> Extent3D {
    match desc.texture_type {
        RenderTextureType::Tex1d | RenderTextureType::Tex1dArray => Extent3D { width: desc.width, height: 1, depth: 1 },
        RenderTextureType::Tex3d => Extent3D { width: desc.width, height: desc.height, depth: desc.depth as u32 },
        _ => Extent3D { width: desc.width, height: desc.height, depth: 1 },
    }
}

/// Image usage: always a transfer destination; sampled for shader
/// resources, storage for unordered access, and both transfer directions
/// plus the attachment usage for render targets and depth-stencil targets.
pub open spec fn spec_image_usage(bind_flags: RenderBindFlags) -> u32 {
    let sampled: u32 = if bind_flags.spec_contains(RenderBindFlags::SHADER_RESOURCE) { vulkan::IMAGE_USAGE_SAMPLED } else { 0 };
    let storage: u32 = if bind_flags.spec_contains(RenderBindFlags::UNORDERED_ACCESS) { vulkan::IMAGE_USAGE_STORAGE } else { 0 };
    let color: u32 = if bind_flags.spec_contains(RenderBindFlags::RENDER_TARGET) {
        vulkan::IMAGE_USAGE_COLOR_ATTACHMENT | vulkan::IMAGE_USAGE_TRANSFER_SRC
    } else { 0 };
    let depth: u32 = if bind_flags.spec_contains(RenderBindFlags::DEPTH_STENCIL) {
        vulkan::IMAGE_USAGE_DEPTH_STENCIL_ATTACHMENT | vulkan::IMAGE_USAGE_TRANSFER_SRC
    } else { 0 };
    vulkan::IMAGE_USAGE_TRANSFER_DST | sampled | storage | color | depth
}

/// Layer counts that fit: cube arrays multiply the element count by six.
pub open spec fn layers_fit(desc: RenderTextureDesc) -> bool {
    desc.texture_type == RenderTextureType::CubeArray ==> 6 * desc.elements <= u16::MAX
}

pub open spec fn spec_image_create_info(desc: RenderTextureDesc, initial_data: bool) -> ImageCreateInfo {
    let format = spec_convert_format(desc.format);
    ImageCreateInfo {
        flags: if is_cube(desc.texture_type) { vulkan::IMAGE_CREATE_CUBE_COMPATIBLE } else { 0 },
        image_type: spec_image_type(desc.texture_type),
        format,
        extent: spec_image_extent(desc),
        mip_levels: desc.levels as u32,
        array_layers: spec_image_layers(desc) as u32,
        samples: 1,
        tiling: if format == vulkan::FORMAT_R32G32B32_SFLOAT { vulkan::IMAGE_TILING_LINEAR } else { vulkan::IMAGE_TILING_OPTIMAL },
        usage: spec_image_usage(desc.bind_flags),
        sharing_mode: 0,
        initial_layout: if initial_data { vulkan::IMAGE_LAYOUT_PREINITIALIZED } else { vulkan::IMAGE_LAYOUT_UNDEFINED },
    }
}

/// Image creation parameters of a texture description.
pub fn get_image_create_info(desc: &RenderTextureDesc, initial_data: bool) -> (r: ImageCreateInfo)
    requires
        layers_fit(*desc),
    ensures
        r == spec_image_create_info(*desc, initial_data),
{
    let format = convert_format(desc.format, false);
    let (image_type, image_extent, image_layers) = match desc.texture_type {
        RenderTextureType::Tex1d => (
            vulkan::IMAGE_TYPE_TYPE_1D,
            Extent3D { width: desc.width, height: 1, depth: 1 },
            1u16,
        ),
        RenderTextureType::Tex1dArray => (
            vulkan::IMAGE_TYPE_TYPE_1D,
            Extent3D { width: desc.width, height: 1, depth: 1 },
            desc.elements,
        ),
        RenderTextureType::Tex2d => (
            vulkan::IMAGE_TYPE_TYPE_2D,
            Extent3D { width: desc.width, height: desc.height, depth: 1 },
            1u16,
        ),
        RenderTextureType::Tex2dArray => (
            vulkan::IMAGE_TYPE_TYPE_2D,
            Extent3D { width: desc.width, height: desc.height, depth: 1 },
            desc.elements,
        ),
        RenderTextureType::Tex3d => (
            vulkan::IMAGE_TYPE_TYPE_3D,
            Extent3D { width: desc.width, height: desc.height, depth: desc.depth as u32 },
            1u16,
        ),
        RenderTextureType::Cube => (
            vulkan::IMAGE_TYPE_TYPE_2D,
            Extent3D { width: desc.width, height: desc.height, depth: 1 },
            6u16,
        ),
        RenderTextureType::CubeArray => (
            vulkan::IMAGE_TYPE_TYPE_2D,
            Extent3D { width: desc.width, height: desc.height, depth: 1 },
            6 * desc.elements,
        ),
    };

    let sampled: u32 = if desc.bind_flags.contains(RenderBindFlags::SHADER_RESOURCE) { vulkan::IMAGE_USAGE_SAMPLED } else { 0 };
    let storage: u32 = if desc.bind_flags.contains(RenderBindFlags::UNORDERED_ACCESS) { vulkan::IMAGE_USAGE_STORAGE } else { 0 };
    let color: u32 = if desc.bind_flags.contains(RenderBindFlags::RENDER_TARGET) {
        vulkan::IMAGE_USAGE_COLOR_ATTACHMENT | vulkan::IMAGE_USAGE_TRANSFER_SRC
    } else { 0 };
    let depth: u32 = if desc.bind_flags.contains(RenderBindFlags::DEPTH_STENCIL) {
        vulkan::IMAGE_USAGE_DEPTH_STENCIL_ATTACHMENT | vulkan::IMAGE_USAGE_TRANSFER_SRC
    } else { 0 };
    let image_usage = vulkan::IMAGE_USAGE_TRANSFER_DST | sampled | storage | color | depth;

    ImageCreateInfo {
        flags: match desc.texture_type {
            RenderTextureType::Cube => vulkan::IMAGE_CREATE_CUBE_COMPATIBLE,
            RenderTextureType::CubeArray => vulkan::IMAGE_CREATE_CUBE_COMPATIBLE,
            _ => 0,
        },
        image_type,
        format,
        extent: image_extent,
        mip_levels: desc.levels as u32,
        array_layers: image_layers as u32,
        samples: 1,
        tiling: if format == vulkan::FORMAT_R32G32B32_SFLOAT { vulkan::IMAGE_TILING_LINEAR } else { vulkan::IMAGE_TILING_OPTIMAL },
        usage: image_usage,
        sharing_mode: 0,
        initial_layout: if initial_data { vulkan::IMAGE_LAYOUT_PREINITIALIZED } else { vulkan::IMAGE_LAYOUT_UNDEFINED },
    }
}

} // verus!
