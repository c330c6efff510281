//! Conversion of the renderer's format and pipeline-state enumerations
//! into raw Vulkan values.

use vstd::prelude::*;
use crate::vulkan;

verus! {

/// Texel formats of the renderer.
#[derive(Clone, Copy, Debug, PartialEq, Eq, Structural)]
pub enum RenderFormat {
    Unknown,
    R4g4Unorm,
    R4g4b4a4Unorm,
    R5g6b5Unorm,
    R5g5b5a1Unorm,
    R8Unorm,
    R8Snorm,
    R8Srgb,
    R8Uint,
    R8Sint,
    R8g8Unorm,
    R8g8Snorm,
    R8g8Srgb,
    R8g8Uint,
    R8g8Sint,
    R8g8b8Unorm,
    R8g8b8Srgb,
    R8g8b8a8Unorm,
    R8g8b8a8Snorm,
    R8g8b8a8Srgb,
    R8g8b8a8Uint,
    R8g8b8a8Sint,
    B8g8r8a8Unorm,
    B8g8r8a8Srgb,
    R11g11b10Float,
    R10g10b10a2Unorm,
    R10g10b10a2Uint,
    R9g9b9e5Float,
    R16Float,
    R16Unorm,
    R16Snorm,
    R16Uint,
    R16Sint,
    R16g16Float,
    R16g16Unorm,
    R16g16Snorm,
    R16g16Uint,
    R16g16Sint,
    R16g16b16a16Float,
    R16g16b16a16Unorm,
    R16g16b16a16Snorm,
    R16g16b16a16Uint,
    R16g16b16a16Sint,
    R32Float,
    R32Uint,
    R32Sint,
    R32g32Float,
    R32g32Uint,
    R32g32Sint,
    R32g32b32Float,
    R32g32b32Uint,
    R32g32b32Sint,
    R32g32b32a32Float,
    R32g32b32a32Uint,
    R32g32b32a32Sint,
    Bc1Unorm,
    Bc1Srgb,
    Bc1aUnorm,
    Bc1aSrgb,
    Bc2Unorm,
    Bc2Srgb,
    Bc3Unorm,
    Bc3Srgb,
    Bc4Unorm,
    Bc4Snorm,
    Bc5Unorm,
    Bc5Snorm,
    Bc6uFloat,
    Bc6sFloat,
    Bc7Unorm,
    Bc7Srgb,
    D24UnormS8Uint,
    D32FloatS8Uint,
    D16Unorm,
    D32Float,
    Astc4x4Unorm,
    Astc4x4Srgb,
    Astc5x4Unorm,
    Astc5x4Srgb,
    Astc5x5Unorm,
    Astc5x5Srgb,
    Astc6x5Unorm,
    Astc6x5Srgb,
    Astc6x6Unorm,
    Astc6x6Srgb,
    Astc8x5Unorm,
    Astc8x5Srgb,
    Astc8x6Unorm,
    Astc8x6Srgb,
    Astc8x8Unorm,
    Astc8x8Srgb,
    Astc10x5Unorm,
    Astc10x5Srgb,
    Astc10x6Unorm,
    Astc10x6Srgb,
    Astc10x8Unorm,
    Astc10x8Srgb,
    Astc10x10Unorm,
    Astc10x10Srgb,
    Astc12x10Unorm,
    Astc12x10Srgb,
    Astc12x12Unorm,
    Astc12x12Srgb,
}

/// Maps a boolean to Vulkan's 32-bit boolean.
pub fn bool_to_vk(state: bool) -> (r: u32)
    ensures
        r == (if state { vulkan::TRUE } else { vulkan::FALSE }),
{
    match state {
        true => vulkan::TRUE,
        false => vulkan::FALSE,
    }
}

/// Vulkan format of a render format (typeless views are not distinguished).
pub open spec fn spec_convert_format(format: RenderFormat) -> i32 {
    match format {
        RenderFormat::Unknown => vulkan::FORMAT_UNDEFINED,
        RenderFormat::R4g4Unorm => vulkan::FORMAT_R4G4_UNORM_PACK8,
        RenderFormat::R4g4b4a4Unorm => vulkan::FORMAT_R4G4B4A4_UNORM_PACK16,
        RenderFormat::R5g6b5Unorm => vulkan::FORMAT_R5G6B5_UNORM_PACK16,
        RenderFormat::R5g5b5a1Unorm => vulkan::FORMAT_R5G5B5A1_UNORM_PACK16,
        RenderFormat::R8Unorm => vulkan::FORMAT_R8_UNORM,
        RenderFormat::R8Snorm => vulkan::FORMAT_R8_SNORM,
        RenderFormat::R8Srgb => vulkan::FORMAT_R8_SRGB,
        RenderFormat::R8Uint => vulkan::FORMAT_R8_UINT,
        RenderFormat::R8Sint => vulkan::FORMAT_R8_SINT,
        RenderFormat::R8g8Unorm => vulkan::FORMAT_R8G8_UNORM,
        RenderFormat::R8g8Snorm => vulkan::FORMAT_R8G8_SNORM,
        RenderFormat::R8g8Srgb => vulkan::FORMAT_R8G8_SRGB,
        RenderFormat::R8g8Uint => vulkan::FORMAT_R8G8_UINT,
        RenderFormat::R8g8Sint => vulkan::FORMAT_R8G8_SINT,
        RenderFormat::R8g8b8Unorm => vulkan::FORMAT_R8G8B8_UNORM,
        RenderFormat::R8g8b8Srgb => vulkan::FORMAT_R8G8B8_SRGB,
        RenderFormat::R8g8b8a8Unorm => vulkan::FORMAT_R8G8B8A8_UNORM,
        RenderFormat::R8g8b8a8Snorm => vulkan::FORMAT_R8G8B8A8_SNORM,
        RenderFormat::R8g8b8a8Srgb => vulkan::FORMAT_R8G8B8A8_SRGB,
        RenderFormat::R8g8b8a8Uint => vulkan::FORMAT_R8G8B8A8_UINT,
        RenderFormat::R8g8b8a8Sint => vulkan::FORMAT_R8G8B8A8_SINT,
        RenderFormat::B8g8r8a8Unorm => vulkan::FORMAT_B8G8R8A8_UNORM,
        RenderFormat::B8g8r8a8Srgb => vulkan::FORMAT_B8G8R8A8_SRGB,
        RenderFormat::R11g11b10Float => vulkan::FORMAT_B10G11R11_UFLOAT_PACK32,
        RenderFormat::R10g10b10a2Unorm => vulkan::FORMAT_A2R10G10B10_UNORM_PACK32,
        RenderFormat::R10g10b10a2Uint => vulkan::FORMAT_A2R10G10B10_UINT_PACK32,
        RenderFormat::R9g9b9e5Float => vulkan::FORMAT_E5B9G9R9_UFLOAT_PACK32,
        RenderFormat::R16Float => vulkan::FORMAT_R16_SFLOAT,
        RenderFormat::R16Unorm => vulkan::FORMAT_R16_UNORM,
        RenderFormat::R16Snorm => vulkan::FORMAT_R16_SNORM,
        RenderFormat::R16Uint => vulkan::FORMAT_R16_UINT,
        RenderFormat::R16Sint => vulkan::FORMAT_R16_SINT,
        RenderFormat::R16g16Float => vulkan::FORMAT_R16G16_SFLOAT,
        RenderFormat::R16g16Unorm => vulkan::FORMAT_R16G16_UNORM,
        RenderFormat::R16g16Snorm => vulkan::FORMAT_R16G16_SNORM,
        RenderFormat::R16g16Uint => vulkan::FORMAT_R16G16_UINT,
        RenderFormat::R16g16Sint => vulkan::FORMAT_R16G16_SINT,
        RenderFormat::R16g16b16a16Float => vulkan::FORMAT_R16G16B16A16_SFLOAT,
        RenderFormat::R16g16b16a16Unorm => vulkan::FORMAT_R16G16B16A16_UNORM,
        RenderFormat::R16g16b16a16Snorm => vulkan::FORMAT_R16G16B16A16_SNORM,
        RenderFormat::R16g16b16a16Uint => vulkan::FORMAT_R16G16B16A16_UINT,
        RenderFormat::R16g16b16a16Sint => vulkan::FORMAT_R16G16B16A16_SINT,
        RenderFormat::R32Float => vulkan::FORMAT_R32_SFLOAT,
        RenderFormat::R32Uint => vulkan::FORMAT_R32_UINT,
        RenderFormat::R32Sint => vulkan::FORMAT_R32_SINT,
        RenderFormat::R32g32Float => vulkan::FORMAT_R32G32_SFLOAT,
        RenderFormat::R32g32Uint => vulkan::FORMAT_R32G32_UINT,
        RenderFormat::R32g32Sint => vulkan::FORMAT_R32G32_SINT,
        RenderFormat::R32g32b32Float => vulkan::FORMAT_R32G32B32_SFLOAT,
        RenderFormat::R32g32b32Uint => vulkan::FORMAT_R32G32B32_UINT,
        RenderFormat::R32g32b32Sint => vulkan::FORMAT_R32G32B32_SINT,
        RenderFormat::R32g32b32a32Float => vulkan::FORMAT_R32G32B32A32_SFLOAT,
        RenderFormat::R32g32b32a32Uint => vulkan::FORMAT_R32G32B32A32_UINT,
        RenderFormat::R32g32b32a32Sint => vulkan::FORMAT_R32G32B32A32_SINT,
        RenderFormat::Bc1Unorm => vulkan::FORMAT_BC1_RGB_UNORM_BLOCK,
        RenderFormat::Bc1Srgb => vulkan::FORMAT_BC1_RGB_SRGB_BLOCK,
        RenderFormat::Bc1aUnorm => vulkan::FORMAT_BC1_RGBA_UNORM_BLOCK,
        RenderFormat::Bc1aSrgb => vulkan::FORMAT_BC1_RGBA_SRGB_BLOCK,
        RenderFormat::Bc2Unorm => vulkan::FORMAT_BC2_UNORM_BLOCK,
        RenderFormat::Bc2Srgb => vulkan::FORMAT_BC2_SRGB_BLOCK,
        RenderFormat::Bc3Unorm => vulkan::FORMAT_BC3_UNORM_BLOCK,
        RenderFormat::Bc3Srgb => vulkan::FORMAT_BC3_SRGB_BLOCK,
        RenderFormat::Bc4Unorm => vulkan::FORMAT_BC4_UNORM_BLOCK,
        RenderFormat::Bc4Snorm => vulkan::FORMAT_BC4_SNORM_BLOCK,
        RenderFormat::Bc5Unorm => vulkan::FORMAT_BC5_UNORM_BLOCK,
        RenderFormat::Bc5Snorm => vulkan::FORMAT_BC5_SNORM_BLOCK,
        RenderFormat::Bc6uFloat => vulkan::FORMAT_BC6H_UFLOAT_BLOCK,
        RenderFormat::Bc6sFloat => vulkan::FORMAT_BC6H_SFLOAT_BLOCK,
        RenderFormat::Bc7Unorm => vulkan::FORMAT_BC7_UNORM_BLOCK,
        RenderFormat::Bc7Srgb => vulkan::FORMAT_BC7_SRGB_BLOCK,
        RenderFormat::D24UnormS8Uint => vulkan::FORMAT_D24_UNORM_S8_UINT,
        RenderFormat::D32FloatS8Uint => vulkan::FORMAT_D32_SFLOAT_S8_UINT,
        RenderFormat::D16Unorm => vulkan::FORMAT_D16_UNORM,
        RenderFormat::D32Float => vulkan::FORMAT_D32_SFLOAT,
        RenderFormat::Astc4x4Unorm => vulkan::FORMAT_ASTC_4X4_UNORM_BLOCK,
        RenderFormat::Astc4x4Srgb => vulkan::FORMAT_ASTC_4X4_SRGB_BLOCK,
        RenderFormat::Astc5x4Unorm => vulkan::FORMAT_ASTC_5X4_UNORM_BLOCK,
        RenderFormat::Astc5x4Srgb => vulkan::FORMAT_ASTC_5X4_SRGB_BLOCK,
        RenderFormat::Astc5x5Unorm => vulkan::FORMAT_ASTC_5X5_UNORM_BLOCK,
        RenderFormat::Astc5x5Srgb => vulkan::FORMAT_ASTC_5X5_SRGB_BLOCK,
        RenderFormat::Astc6x5Unorm => vulkan::FORMAT_ASTC_6X5_UNORM_BLOCK,
        RenderFormat::Astc6x5Srgb => vulkan::FORMAT_ASTC_6X5_SRGB_BLOCK,
        RenderFormat::Astc6x6Unorm => vulkan::FORMAT_ASTC_6X6_UNORM_BLOCK,
        RenderFormat::Astc6x6Srgb => vulkan::FORMAT_ASTC_6X6_SRGB_BLOCK,
        RenderFormat::Astc8x5Unorm => vulkan::FORMAT_ASTC_8X5_UNORM_BLOCK,
        RenderFormat::Astc8x5Srgb => vulkan::FORMAT_ASTC_8X5_SRGB_BLOCK,
        RenderFormat::Astc8x6Unorm => vulkan::FORMAT_ASTC_8X6_UNORM_BLOCK,
        RenderFormat::Astc8x6Srgb => vulkan::FORMAT_ASTC_8X6_SRGB_BLOCK,
        RenderFormat::Astc8x8Unorm => vulkan::FORMAT_ASTC_8X8_UNORM_BLOCK,
        RenderFormat::Astc8x8Srgb => vulkan::FORMAT_ASTC_8X8_SRGB_BLOCK,
        RenderFormat::Astc10x5Unorm => vulkan::FORMAT_ASTC_10X5_UNORM_BLOCK,
        RenderFormat::Astc10x5Srgb => vulkan::FORMAT_ASTC_10X5_SRGB_BLOCK,
        RenderFormat::Astc10x6Unorm => vulkan::FORMAT_ASTC_10X6_UNORM_BLOCK,
        RenderFormat::Astc10x6Srgb => vulkan::FORMAT_ASTC_10X6_SRGB_BLOCK,
        RenderFormat::Astc10x8Unorm => vulkan::FORMAT_ASTC_10X8_UNORM_BLOCK,
        RenderFormat::Astc10x8Srgb => vulkan::FORMAT_ASTC_10X8_SRGB_BLOCK,
        RenderFormat::Astc10x10Unorm => vulkan::FORMAT_ASTC_10X10_UNORM_BLOCK,
        RenderFormat::Astc10x10Srgb => vulkan::FORMAT_ASTC_10X10_SRGB_BLOCK,
        RenderFormat::Astc12x10Unorm => vulkan::FORMAT_ASTC_12X10_UNORM_BLOCK,
        RenderFormat::Astc12x10Srgb => vulkan::FORMAT_ASTC_12X10_SRGB_BLOCK,
        RenderFormat::Astc12x12Unorm => vulkan::FORMAT_ASTC_12X12_UNORM_BLOCK,
        RenderFormat::Astc12x12Srgb => vulkan::FORMAT_ASTC_12X12_SRGB_BLOCK,
    }
}

/// The render format a Vulkan format stands for: the one that converts
/// to it (`Unknown` for a Vulkan format no render format converts to).
pub open spec fn spec_render_format_of(v: i32) -> RenderFormat {
    if v == vulkan::FORMAT_UNDEFINED {
        RenderFormat::Unknown
    } else if v == vulkan::FORMAT_R4G4_UNORM_PACK8 {
        RenderFormat::R4g4Unorm
    } else if v == vulkan::FORMAT_R4G4B4A4_UNORM_PACK16 {
        RenderFormat::R4g4b4a4Unorm
    } else if v == vulkan::FORMAT_R5G6B5_UNORM_PACK16 {
        RenderFormat::R5g6b5Unorm
    } else if v == vulkan::FORMAT_R5G5B5A1_UNORM_PACK16 {
        RenderFormat::R5g5b5a1Unorm
    } else if v == vulkan::FORMAT_R8_UNORM {
        RenderFormat::R8Unorm
    } else if v == vulkan::FORMAT_R8_SNORM {
        RenderFormat::R8Snorm
    } else if v == vulkan::FORMAT_R8_SRGB {
        RenderFormat::R8Srgb
    } else if v == vulkan::FORMAT_R8_UINT {
        RenderFormat::R8Uint
    } else if v == vulkan::FORMAT_R8_SINT {
        RenderFormat::R8Sint
    } else if v == vulkan::FORMAT_R8G8_UNORM {
        RenderFormat::R8g8Unorm
    } else if v == vulkan::FORMAT_R8G8_SNORM {
        RenderFormat::R8g8Snorm
    } else if v == vulkan::FORMAT_R8G8_SRGB {
        RenderFormat::R8g8Srgb
    } else if v == vulkan::FORMAT_R8G8_UINT {
        RenderFormat::R8g8Uint
    } else if v == vulkan::FORMAT_R8G8_SINT {
        RenderFormat::R8g8Sint
    } else if v == vulkan::FORMAT_R8G8B8_UNORM {
        RenderFormat::R8g8b8Unorm
    } else if v == vulkan::FORMAT_R8G8B8_SRGB {
        RenderFormat::R8g8b8Srgb
    } else if v == vulkan::FORMAT_R8G8B8A8_UNORM {
        RenderFormat::R8g8b8a8Unorm
    } else if v == vulkan::FORMAT_R8G8B8A8_SNORM {
        RenderFormat::R8g8b8a8Snorm
    } else if v == vulkan::FORMAT_R8G8B8A8_SRGB {
        RenderFormat::R8g8b8a8Srgb
    } else if v == vulkan::FORMAT_R8G8B8A8_UINT {
        RenderFormat::R8g8b8a8Uint
    } else if v == vulkan::FORMAT_R8G8B8A8_SINT {
        RenderFormat::R8g8b8a8Sint
    } else if v == vulkan::FORMAT_B8G8R8A8_UNORM {
        RenderFormat::B8g8r8a8Unorm
    } else if v == vulkan::FORMAT_B8G8R8A8_SRGB {
        RenderFormat::B8g8r8a8Srgb
    } else if v == vulkan::FORMAT_B10G11R11_UFLOAT_PACK32 {
        RenderFormat::R11g11b10Float
    } else if v == vulkan::FORMAT_A2R10G10B10_UNORM_PACK32 {
        RenderFormat::R10g10b10a2Unorm
    } else if v == vulkan::FORMAT_A2R10G10B10_UINT_PACK32 {
        RenderFormat::R10g10b10a2Uint
    } else if v == vulkan::FORMAT_E5B9G9R9_UFLOAT_PACK32 {
        RenderFormat::R9g9b9e5Float
    } else if v == vulkan::FORMAT_R16_SFLOAT {
        RenderFormat::R16Float
    } else if v == vulkan::FORMAT_R16_UNORM {
        RenderFormat::R16Unorm
    } else if v == vulkan::FORMAT_R16_SNORM {
        RenderFormat::R16Snorm
    } else if v == vulkan::FORMAT_R16_UINT {
        RenderFormat::R16Uint
    } else if v == vulkan::FORMAT_R16_SINT {
        RenderFormat::R16Sint
    } else if v == vulkan::FORMAT_R16G16_SFLOAT {
        RenderFormat::R16g16Float
    } else if v == vulkan::FORMAT_R16G16_UNORM {
        RenderFormat::R16g16Unorm
    } else if v == vulkan::FORMAT_R16G16_SNORM {
        RenderFormat::R16g16Snorm
    } else if v == vulkan::FORMAT_R16G16_UINT {
        RenderFormat::R16g16Uint
    } else if v == vulkan::FORMAT_R16G16_SINT {
        RenderFormat::R16g16Sint
    } else if v == vulkan::FORMAT_R16G16B16A16_SFLOAT {
        RenderFormat::R16g16b16a16Float
    } else if v == vulkan::FORMAT_R16G16B16A16_UNORM {
        RenderFormat::R16g16b16a16Unorm
    } else if v == vulkan::FORMAT_R16G16B16A16_SNORM {
        RenderFormat::R16g16b16a16Snorm
    } else if v == vulkan::FORMAT_R16G16B16A16_UINT {
        RenderFormat::R16g16b16a16Uint
    } else if v == vulkan::FORMAT_R16G16B16A16_SINT {
        RenderFormat::R16g16b16a16Sint
    } else if v == vulkan::FORMAT_R32_SFLOAT {
        RenderFormat::R32Float
    } else if v == vulkan::FORMAT_R32_UINT {
        RenderFormat::R32Uint
    } else if v == vulkan::FORMAT_R32_SINT {
        RenderFormat::R32Sint
    } else if v == vulkan::FORMAT_R32G32_SFLOAT {
        RenderFormat::R32g32Float
    } else if v == vulkan::FORMAT_R32G32_UINT {
        RenderFormat::R32g32Uint
    } else if v == vulkan::FORMAT_R32G32_SINT {
        RenderFormat::R32g32Sint
    } else if v == vulkan::FORMAT_R32G32B32_SFLOAT {
        RenderFormat::R32g32b32Float
    } else if v == vulkan::FORMAT_R32G32B32_UINT {
        RenderFormat::R32g32b32Uint
    } else if v == vulkan::FORMAT_R32G32B32_SINT {
        RenderFormat::R32g32b32Sint
    } else if v == vulkan::FORMAT_R32G32B32A32_SFLOAT {
        RenderFormat::R32g32b32a32Float
    } else if v == vulkan::FORMAT_R32G32B32A32_UINT {
        RenderFormat::R32g32b32a32Uint
    } else if v == vulkan::FORMAT_R32G32B32A32_SINT {
        RenderFormat::R32g32b32a32Sint
    } else if v == vulkan::FORMAT_BC1_RGB_UNORM_BLOCK {
        RenderFormat::Bc1Unorm
    } else if v == vulkan::FORMAT_BC1_RGB_SRGB_BLOCK {
        RenderFormat::Bc1Srgb
    } else if v == vulkan::FORMAT_BC1_RGBA_UNORM_BLOCK {
        RenderFormat::Bc1aUnorm
    } else if v == vulkan::FORMAT_BC1_RGBA_SRGB_BLOCK {
        RenderFormat::Bc1aSrgb
    } else if v == vulkan::FORMAT_BC2_UNORM_BLOCK {
        RenderFormat::Bc2Unorm
    } else if v == vulkan::FORMAT_BC2_SRGB_BLOCK {
        RenderFormat::Bc2Srgb
    } else if v == vulkan::FORMAT_BC3_UNORM_BLOCK {
        RenderFormat::Bc3Unorm
    } else if v == vulkan::FORMAT_BC3_SRGB_BLOCK {
        RenderFormat::Bc3Srgb
    } else if v == vulkan::FORMAT_BC4_UNORM_BLOCK {
        RenderFormat::Bc4Unorm
    } else if v == vulkan::FORMAT_BC4_SNORM_BLOCK {
        RenderFormat::Bc4Snorm
    } else if v == vulkan::FORMAT_BC5_UNORM_BLOCK {
        RenderFormat::Bc5Unorm
    } else if v == vulkan::FORMAT_BC5_SNORM_BLOCK {
        RenderFormat::Bc5Snorm
    } else if v == vulkan::FORMAT_BC6H_UFLOAT_BLOCK {
        RenderFormat::Bc6uFloat
    } else if v == vulkan::FORMAT_BC6H_SFLOAT_BLOCK {
        RenderFormat::Bc6sFloat
    } else if v == vulkan::FORMAT_BC7_UNORM_BLOCK {
        RenderFormat::Bc7Unorm
    } else if v == vulkan::FORMAT_BC7_SRGB_BLOCK {
        RenderFormat::Bc7Srgb
    } else if v == vulkan::FORMAT_D24_UNORM_S8_UINT {
        RenderFormat::D24UnormS8Uint
    } else if v == vulkan::FORMAT_D32_SFLOAT_S8_UINT {
        RenderFormat::D32FloatS8Uint
    } else if v == vulkan::FORMAT_D16_UNORM {
        RenderFormat::D16Unorm
    } else if v == vulkan::FORMAT_D32_SFLOAT {
        RenderFormat::D32Float
    } else if v == vulkan::FORMAT_ASTC_4X4_UNORM_BLOCK {
        RenderFormat::Astc4x4Unorm
    } else if v == vulkan::FORMAT_ASTC_4X4_SRGB_BLOCK {
        RenderFormat::Astc4x4Srgb
    } else if v == vulkan::FORMAT_ASTC_5X4_UNORM_BLOCK {
        RenderFormat::Astc5x4Unorm
    } else if v == vulkan::FORMAT_ASTC_5X4_SRGB_BLOCK {
        RenderFormat::Astc5x4Srgb
    } else if v == vulkan::FORMAT_ASTC_5X5_UNORM_BLOCK {
        RenderFormat::Astc5x5Unorm
    } else if v == vulkan::FORMAT_ASTC_5X5_SRGB_BLOCK {
        RenderFormat::Astc5x5Srgb
    } else if v == vulkan::FORMAT_ASTC_6X5_UNORM_BLOCK {
        RenderFormat::Astc6x5Unorm
    } else if v == vulkan::FORMAT_ASTC_6X5_SRGB_BLOCK {
        RenderFormat::Astc6x5Srgb
    } else if v == vulkan::FORMAT_ASTC_6X6_UNORM_BLOCK {
        RenderFormat::Astc6x6Unorm
    } else if v == vulkan::FORMAT_ASTC_6X6_SRGB_BLOCK {
        RenderFormat::Astc6x6Srgb
    } else if v == vulkan::FORMAT_ASTC_8X5_UNORM_BLOCK {
        RenderFormat::Astc8x5Unorm
    } else if v == vulkan::FORMAT_ASTC_8X5_SRGB_BLOCK {
        RenderFormat::Astc8x5Srgb
    } else if v == vulkan::FORMAT_ASTC_8X6_UNORM_BLOCK {
        RenderFormat::Astc8x6Unorm
    } else if v == vulkan::FORMAT_ASTC_8X6_SRGB_BLOCK {
        RenderFormat::Astc8x6Srgb
    } else if v == vulkan::FORMAT_ASTC_8X8_UNORM_BLOCK {
        RenderFormat::Astc8x8Unorm
    } else if v == vulkan::FORMAT_ASTC_8X8_SRGB_BLOCK {
        RenderFormat::Astc8x8Srgb
    } else if v == vulkan::FORMAT_ASTC_10X5_UNORM_BLOCK {
        RenderFormat::Astc10x5Unorm
    } else if v == vulkan::FORMAT_ASTC_10X5_SRGB_BLOCK {
        RenderFormat::Astc10x5Srgb
    } else if v == vulkan::FORMAT_ASTC_10X6_UNORM_BLOCK {
        RenderFormat::Astc10x6Unorm
    } else if v == vulkan::FORMAT_ASTC_10X6_SRGB_BLOCK {
        RenderFormat::Astc10x6Srgb
    } else if v == vulkan::FORMAT_ASTC_10X8_UNORM_BLOCK {
        RenderFormat::Astc10x8Unorm
    } else if v == vulkan::FORMAT_ASTC_10X8_SRGB_BLOCK {
        RenderFormat::Astc10x8Srgb
    } else if v == vulkan::FORMAT_ASTC_10X10_UNORM_BLOCK {
        RenderFormat::Astc10x10Unorm
    } else if v == vulkan::FORMAT_ASTC_10X10_SRGB_BLOCK {
        RenderFormat::Astc10x10Srgb
    } else if v == vulkan::FORMAT_ASTC_12X10_UNORM_BLOCK {
        RenderFormat::Astc12x10Unorm
    } else if v == vulkan::FORMAT_ASTC_12X10_SRGB_BLOCK {
        RenderFormat::Astc12x10Srgb
    } else if v == vulkan::FORMAT_ASTC_12X12_UNORM_BLOCK {
        RenderFormat::Astc12x12Unorm
    } else if v == vulkan::FORMAT_ASTC_12X12_SRGB_BLOCK {
        RenderFormat::Astc12x12Srgb
    } else {
        RenderFormat::Unknown
    }
}

/// No two render formats convert to the same Vulkan format: the render
/// format can be read back from the Vulkan one.
pub proof fn lemma_convert_format_injective(a: RenderFormat, b: RenderFormat)
    ensures
        spec_render_format_of(spec_convert_format(a)) == a,
        spec_convert_format(a) == spec_convert_format(b) ==> a == b,
{
    lemma_render_format_round_trip(a);
    lemma_render_format_round_trip(b);
}

/// Converting a render format and reading it back gives it again.
proof fn lemma_render_format_round_trip(f: RenderFormat)
    ensures
        spec_render_format_of(spec_convert_format(f)) == f,
{
    match f {
        RenderFormat::Unknown => {},
        RenderFormat::R4g4Unorm => {},
        RenderFormat::R4g4b4a4Unorm => {},
        RenderFormat::R5g6b5Unorm => {},
        RenderFormat::R5g5b5a1Unorm => {},
        RenderFormat::R8Unorm => {},
        RenderFormat::R8Snorm => {},
        RenderFormat::R8Srgb => {},
        RenderFormat::R8Uint => {},
        RenderFormat::R8Sint => {},
        RenderFormat::R8g8Unorm => {},
        RenderFormat::R8g8Snorm => {},
        RenderFormat::R8g8Srgb => {},
        RenderFormat::R8g8Uint => {},
        RenderFormat::R8g8Sint => {},
        RenderFormat::R8g8b8Unorm => {},
        RenderFormat::R8g8b8Srgb => {},
        RenderFormat::R8g8b8a8Unorm => {},
        RenderFormat::R8g8b8a8Snorm => {},
        RenderFormat::R8g8b8a8Srgb => {},
        RenderFormat::R8g8b8a8Uint => {},
        RenderFormat::R8g8b8a8Sint => {},
        RenderFormat::B8g8r8a8Unorm => {},
        RenderFormat::B8g8r8a8Srgb => {},
        RenderFormat::R11g11b10Float => {},
        RenderFormat::R10g10b10a2Unorm => {},
        RenderFormat::R10g10b10a2Uint => {},
        RenderFormat::R9g9b9e5Float => {},
        RenderFormat::R16Float => {},
        RenderFormat::R16Unorm => {},
        RenderFormat::R16Snorm => {},
        RenderFormat::R16Uint => {},
        RenderFormat::R16Sint => {},
        RenderFormat::R16g16Float => {},
        RenderFormat::R16g16Unorm => {},
        RenderFormat::R16g16Snorm => {},
        RenderFormat::R16g16Uint => {},
        RenderFormat::R16g16Sint => {},
        RenderFormat::R16g16b16a16Float => {},
        RenderFormat::R16g16b16a16Unorm => {},
        RenderFormat::R16g16b16a16Snorm => {},
        RenderFormat::R16g16b16a16Uint => {},
        RenderFormat::R16g16b16a16Sint => {},
        RenderFormat::R32Float => {},
        RenderFormat::R32Uint => {},
        RenderFormat::R32Sint => {},
        RenderFormat::R32g32Float => {},
        RenderFormat::R32g32Uint => {},
        RenderFormat::R32g32Sint => {},
        RenderFormat::R32g32b32Float => {},
        RenderFormat::R32g32b32Uint => {},
        RenderFormat::R32g32b32Sint => {},
        RenderFormat::R32g32b32a32Float => {},
        RenderFormat::R32g32b32a32Uint => {},
        RenderFormat::R32g32b32a32Sint => {},
        RenderFormat::Bc1Unorm => {},
        RenderFormat::Bc1Srgb => {},
        RenderFormat::Bc1aUnorm => {},
        RenderFormat::Bc1aSrgb => {},
        RenderFormat::Bc2Unorm => {},
        RenderFormat::Bc2Srgb => {},
        RenderFormat::Bc3Unorm => {},
        RenderFormat::Bc3Srgb => {},
        RenderFormat::Bc4Unorm => {},
        RenderFormat::Bc4Snorm => {},
        RenderFormat::Bc5Unorm => {},
        RenderFormat::Bc5Snorm => {},
        RenderFormat::Bc6uFloat => {},
        RenderFormat::Bc6sFloat => {},
        RenderFormat::Bc7Unorm => {},
        RenderFormat::Bc7Srgb => {},
        RenderFormat::D24UnormS8Uint => {},
        RenderFormat::D32FloatS8Uint => {},
        RenderFormat::D16Unorm => {},
        RenderFormat::D32Float => {},
        RenderFormat::Astc4x4Unorm => {},
        RenderFormat::Astc4x4Srgb => {},
        RenderFormat::Astc5x4Unorm => {},
        RenderFormat::Astc5x4Srgb => {},
        RenderFormat::Astc5x5Unorm => {},
        RenderFormat::Astc5x5Srgb => {},
        RenderFormat::Astc6x5Unorm => {},
        RenderFormat::Astc6x5Srgb => {},
        RenderFormat::Astc6x6Unorm => {},
        RenderFormat::Astc6x6Srgb => {},
        RenderFormat::Astc8x5Unorm => {},
        RenderFormat::Astc8x5Srgb => {},
        RenderFormat::Astc8x6Unorm => {},
        RenderFormat::Astc8x6Srgb => {},
        RenderFormat::Astc8x8Unorm => {},
        RenderFormat::Astc8x8Srgb => {},
        RenderFormat::Astc10x5Unorm => {},
        RenderFormat::Astc10x5Srgb => {},
        RenderFormat::Astc10x6Unorm => {},
        RenderFormat::Astc10x6Srgb => {},
        RenderFormat::Astc10x8Unorm => {},
        RenderFormat::Astc10x8Srgb => {},
        RenderFormat::Astc10x10Unorm => {},
        RenderFormat::Astc10x10Srgb => {},
        RenderFormat::Astc12x10Unorm => {},
        RenderFormat::Astc12x10Srgb => {},
        RenderFormat::Astc12x12Unorm => {},
        RenderFormat::Astc12x12Srgb => {},
    }
}

/// Vulkan format of a render format (typeless views are not distinguished).
pub fn convert_format(format: RenderFormat, _typeless: bool) -> (r: i32)
    ensures
        r == spec_convert_format(format),
{
    match format {
        RenderFormat::Unknown => vulkan::FORMAT_UNDEFINED,
        RenderFormat::R4g4Unorm => vulkan::FORMAT_R4G4_UNORM_PACK8,
        RenderFormat::R4g4b4a4Unorm => vulkan::FORMAT_R4G4B4A4_UNORM_PACK16,
        RenderFormat::R5g6b5Unorm => vulkan::FORMAT_R5G6B5_UNORM_PACK16,
        RenderFormat::R5g5b5a1Unorm => vulkan::FORMAT_R5G5B5A1_UNORM_PACK16,
        RenderFormat::R8Unorm => vulkan::FORMAT_R8_UNORM,
        RenderFormat::R8Snorm => vulkan::FORMAT_R8_SNORM,
        RenderFormat::R8Srgb => vulkan::FORMAT_R8_SRGB,
        RenderFormat::R8Uint => vulkan::FORMAT_R8_UINT,
        RenderFormat::R8Sint => vulkan::FORMAT_R8_SINT,
        RenderFormat::R8g8Unorm => vulkan::FORMAT_R8G8_UNORM,
        RenderFormat::R8g8Snorm => vulkan::FORMAT_R8G8_SNORM,
        RenderFormat::R8g8Srgb => vulkan::FORMAT_R8G8_SRGB,
        RenderFormat::R8g8Uint => vulkan::FORMAT_R8G8_UINT,
        RenderFormat::R8g8Sint => vulkan::FORMAT_R8G8_SINT,
        RenderFormat::R8g8b8Unorm => vulkan::FORMAT_R8G8B8_UNORM,
        RenderFormat::R8g8b8Srgb => vulkan::FORMAT_R8G8B8_SRGB,
        RenderFormat::R8g8b8a8Unorm => vulkan::FORMAT_R8G8B8A8_UNORM,
        RenderFormat::R8g8b8a8Snorm => vulkan::FORMAT_R8G8B8A8_SNORM,
        RenderFormat::R8g8b8a8Srgb => vulkan::FORMAT_R8G8B8A8_SRGB,
        RenderFormat::R8g8b8a8Uint => vulkan::FORMAT_R8G8B8A8_UINT,
        RenderFormat::R8g8b8a8Sint => vulkan::FORMAT_R8G8B8A8_SINT,
        RenderFormat::B8g8r8a8Unorm => vulkan::FORMAT_B8G8R8A8_UNORM,
        RenderFormat::B8g8r8a8Srgb => vulkan::FORMAT_B8G8R8A8_SRGB,
        RenderFormat::R11g11b10Float => vulkan::FORMAT_B10G11R11_UFLOAT_PACK32,
        RenderFormat::R10g10b10a2Unorm => vulkan::FORMAT_A2R10G10B10_UNORM_PACK32,
        RenderFormat::R10g10b10a2Uint => vulkan::FORMAT_A2R10G10B10_UINT_PACK32,
        RenderFormat::R9g9b9e5Float => vulkan::FORMAT_E5B9G9R9_UFLOAT_PACK32,
        RenderFormat::R16Float => vulkan::FORMAT_R16_SFLOAT,
        RenderFormat::R16Unorm => vulkan::FORMAT_R16_UNORM,
        RenderFormat::R16Snorm => vulkan::FORMAT_R16_SNORM,
        RenderFormat::R16Uint => vulkan::FORMAT_R16_UINT,
        RenderFormat::R16Sint => vulkan::FORMAT_R16_SINT,
        RenderFormat::R16g16Float => vulkan::FORMAT_R16G16_SFLOAT,
        RenderFormat::R16g16Unorm => vulkan::FORMAT_R16G16_UNORM,
        RenderFormat::R16g16Snorm => vulkan::FORMAT_R16G16_SNORM,
        RenderFormat::R16g16Uint => vulkan::FORMAT_R16G16_UINT,
        RenderFormat::R16g16Sint => vulkan::FORMAT_R16G16_SINT,
        RenderFormat::R16g16b16a16Float => vulkan::FORMAT_R16G16B16A16_SFLOAT,
        RenderFormat::R16g16b16a16Unorm => vulkan::FORMAT_R16G16B16A16_UNORM,
        RenderFormat::R16g16b16a16Snorm => vulkan::FORMAT_R16G16B16A16_SNORM,
        RenderFormat::R16g16b16a16Uint => vulkan::FORMAT_R16G16B16A16_UINT,
        RenderFormat::R16g16b16a16Sint => vulkan::FORMAT_R16G16B16A16_SINT,
        RenderFormat::R32Float => vulkan::FORMAT_R32_SFLOAT,
        RenderFormat::R32Uint => vulkan::FORMAT_R32_UINT,
        RenderFormat::R32Sint => vulkan::FORMAT_R32_SINT,
        RenderFormat::R32g32Float => vulkan::FORMAT_R32G32_SFLOAT,
        RenderFormat::R32g32Uint => vulkan::FORMAT_R32G32_UINT,
        RenderFormat::R32g32Sint => vulkan::FORMAT_R32G32_SINT,
        RenderFormat::R32g32b32Float => vulkan::FORMAT_R32G32B32_SFLOAT,
        RenderFormat::R32g32b32Uint => vulkan::FORMAT_R32G32B32_UINT,
        RenderFormat::R32g32b32Sint => vulkan::FORMAT_R32G32B32_SINT,
        RenderFormat::R32g32b32a32Float => vulkan::FORMAT_R32G32B32A32_SFLOAT,
        RenderFormat::R32g32b32a32Uint => vulkan::FORMAT_R32G32B32A32_UINT,
        RenderFormat::R32g32b32a32Sint => vulkan::FORMAT_R32G32B32A32_SINT,
        RenderFormat::Bc1Unorm => vulkan::FORMAT_BC1_RGB_UNORM_BLOCK,
        RenderFormat::Bc1Srgb => vulkan::FORMAT_BC1_RGB_SRGB_BLOCK,
        RenderFormat::Bc1aUnorm => vulkan::FORMAT_BC1_RGBA_UNORM_BLOCK,
        RenderFormat::Bc1aSrgb => vulkan::FORMAT_BC1_RGBA_SRGB_BLOCK,
        RenderFormat::Bc2Unorm => vulkan::FORMAT_BC2_UNORM_BLOCK,
        RenderFormat::Bc2Srgb => vulkan::FORMAT_BC2_SRGB_BLOCK,
        RenderFormat::Bc3Unorm => vulkan::FORMAT_BC3_UNORM_BLOCK,
        RenderFormat::Bc3Srgb => vulkan::FORMAT_BC3_SRGB_BLOCK,
        RenderFormat::Bc4Unorm => vulkan::FORMAT_BC4_UNORM_BLOCK,
        RenderFormat::Bc4Snorm => vulkan::FORMAT_BC4_SNORM_BLOCK,
        RenderFormat::Bc5Unorm => vulkan::FORMAT_BC5_UNORM_BLOCK,
        RenderFormat::Bc5Snorm => vulkan::FORMAT_BC5_SNORM_BLOCK,
        RenderFormat::Bc6uFloat => vulkan::FORMAT_BC6H_UFLOAT_BLOCK,
        RenderFormat::Bc6sFloat => vulkan::FORMAT_BC6H_SFLOAT_BLOCK,
        RenderFormat::Bc7Unorm => vulkan::FORMAT_BC7_UNORM_BLOCK,
        RenderFormat::Bc7Srgb => vulkan::FORMAT_BC7_SRGB_BLOCK,
        RenderFormat::D24UnormS8Uint => vulkan::FORMAT_D24_UNORM_S8_UINT,
        RenderFormat::D32FloatS8Uint => vulkan::FORMAT_D32_SFLOAT_S8_UINT,
        RenderFormat::D16Unorm => vulkan::FORMAT_D16_UNORM,
        RenderFormat::D32Float => vulkan::FORMAT_D32_SFLOAT,
        RenderFormat::Astc4x4Unorm => vulkan::FORMAT_ASTC_4X4_UNORM_BLOCK,
        RenderFormat::Astc4x4Srgb => vulkan::FORMAT_ASTC_4X4_SRGB_BLOCK,
        RenderFormat::Astc5x4Unorm => vulkan::FORMAT_ASTC_5X4_UNORM_BLOCK,
        RenderFormat::Astc5x4Srgb => vulkan::FORMAT_ASTC_5X4_SRGB_BLOCK,
        RenderFormat::Astc5x5Unorm => vulkan::FORMAT_ASTC_5X5_UNORM_BLOCK,
        RenderFormat::Astc5x5Srgb => vulkan::FORMAT_ASTC_5X5_SRGB_BLOCK,
        RenderFormat::Astc6x5Unorm => vulkan::FORMAT_ASTC_6X5_UNORM_BLOCK,
        RenderFormat::Astc6x5Srgb => vulkan::FORMAT_ASTC_6X5_SRGB_BLOCK,
        RenderFormat::Astc6x6Unorm => vulkan::FORMAT_ASTC_6X6_UNORM_BLOCK,
        RenderFormat::Astc6x6Srgb => vulkan::FORMAT_ASTC_6X6_SRGB_BLOCK,
        RenderFormat::Astc8x5Unorm => vulkan::FORMAT_ASTC_8X5_UNORM_BLOCK,
        RenderFormat::Astc8x5Srgb => vulkan::FORMAT_ASTC_8X5_SRGB_BLOCK,
        RenderFormat::Astc8x6Unorm => vulkan::FORMAT_ASTC_8X6_UNORM_BLOCK,
        RenderFormat::Astc8x6Srgb => vulkan::FORMAT_ASTC_8X6_SRGB_BLOCK,
        RenderFormat::Astc8x8Unorm => vulkan::FORMAT_ASTC_8X8_UNORM_BLOCK,
        RenderFormat::Astc8x8Srgb => vulkan::FORMAT_ASTC_8X8_SRGB_BLOCK,
        RenderFormat::Astc10x5Unorm => vulkan::FORMAT_ASTC_10X5_UNORM_BLOCK,
        RenderFormat::Astc10x5Srgb => vulkan::FORMAT_ASTC_10X5_SRGB_BLOCK,
        RenderFormat::Astc10x6Unorm => vulkan::FORMAT_ASTC_10X6_UNORM_BLOCK,
        RenderFormat::Astc10x6Srgb => vulkan::FORMAT_ASTC_10X6_SRGB_BLOCK,
        RenderFormat::Astc10x8Unorm => vulkan::FORMAT_ASTC_10X8_UNORM_BLOCK,
        RenderFormat::Astc10x8Srgb => vulkan::FORMAT_ASTC_10X8_SRGB_BLOCK,
        RenderFormat::Astc10x10Unorm => vulkan::FORMAT_ASTC_10X10_UNORM_BLOCK,
        RenderFormat::Astc10x10Srgb => vulkan::FORMAT_ASTC_10X10_SRGB_BLOCK,
        RenderFormat::Astc12x10Unorm => vulkan::FORMAT_ASTC_12X10_UNORM_BLOCK,
        RenderFormat::Astc12x10Srgb => vulkan::FORMAT_ASTC_12X10_SRGB_BLOCK,
        RenderFormat::Astc12x12Unorm => vulkan::FORMAT_ASTC_12X12_UNORM_BLOCK,
        RenderFormat::Astc12x12Srgb => vulkan::FORMAT_ASTC_12X12_SRGB_BLOCK,
    }
}

#[derive(Clone, Copy, Debug, PartialEq, Eq, Structural)]
pub enum RenderFillMode {
    Solid,
    WireFrame,
}

/// Vulkan polygon mode of a fill mode.
pub open spec fn spec_get_polygon_mode(fill_mode: RenderFillMode) -> i32 {
    match fill_mode {
        RenderFillMode::Solid => vulkan::POLYGON_MODE_FILL,
        RenderFillMode::WireFrame => vulkan::POLYGON_MODE_LINE,
    }
}

/// What a fill mode draws of a polygon, by dimension: its area (2) or its
/// edges (1).
pub open spec fn fill_dimension(fill_mode: RenderFillMode) -> int {
    match fill_mode {
        RenderFillMode::Solid => 2,
        RenderFillMode::WireFrame => 1,
    }
}

/// What a Vulkan polygon mode draws of a polygon, by dimension (fill: the
/// area, line: the edges, point: the vertices), by the numbers Vulkan gives
/// its polygon modes.
pub open spec fn vk_polygon_dimension(mode: int) -> Option<int> {
    if mode == 0 { Some(2) } else if mode == 1 { Some(1) } else if mode == 2 { Some(0) } else { None }
}

/// A fill mode becomes the Vulkan polygon mode that draws the same: solid
/// polygons are filled, wireframe ones drawn as lines.
pub proof fn lemma_polygon_mode_meaning(fill_mode: RenderFillMode)
    ensures
        vk_polygon_dimension(spec_get_polygon_mode(fill_mode) as int) == Some(fill_dimension(fill_mode)),
{
}

/// Vulkan polygon mode of a fill mode.
pub fn get_polygon_mode(fill_mode: RenderFillMode) -> (r: i32)
    ensures
        r == spec_get_polygon_mode(fill_mode),
        vk_polygon_dimension(r as int) == Some(fill_dimension(fill_mode)),
{
    proof {
        lemma_polygon_mode_meaning(fill_mode);
    }
    match fill_mode {
        RenderFillMode::Solid => vulkan::POLYGON_MODE_FILL,
        RenderFillMode::WireFrame => vulkan::POLYGON_MODE_LINE,
    }
}

#[derive(Clone, Copy, Debug, PartialEq, Eq, Structural)]
pub enum RenderCullMode {
    CullNone,
    Front,
    Back,
}

/// Vulkan cull mode of a cull mode.
pub open spec fn spec_get_cull_mode(cull_mode: RenderCullMode) -> u32 {
    match cull_mode {
        RenderCullMode::CullNone => vulkan::CULL_MODE_NONE,
        RenderCullMode::Front => vulkan::CULL_MODE_FRONT,
        RenderCullMode::Back => vulkan::CULL_MODE_BACK,
    }
}

/// Whether a cull mode discards a polygon that faces the viewer
/// (`front_facing`) or faces away.
pub open spec fn culled(cull_mode: RenderCullMode, front_facing: bool) -> bool {
    match cull_mode {
        RenderCullMode::CullNone => false,
        RenderCullMode::Front => front_facing,
        RenderCullMode::Back => !front_facing,
    }
}

/// Whether Vulkan cull mode flags discard a polygon: the lowest bit culls
/// front faces, the next back faces.
pub open spec fn vk_culled(flags: int, front_facing: bool) -> bool {
    &&& 0 <= flags < 4
    &&& if front_facing { flags % 2 == 1 } else { (flags / 2) % 2 == 1 }
}

/// A cull mode becomes the Vulkan cull flags that discard the same faces.
pub proof fn lemma_cull_mode_meaning(cull_mode: RenderCullMode, front_facing: bool)
    ensures
        vk_culled(spec_get_cull_mode(cull_mode) as int, front_facing) == culled(cull_mode, front_facing),
{
}

/// Vulkan cull mode of a cull mode.
pub fn get_cull_mode(cull_mode: RenderCullMode) -> (r: u32)
    ensures
        r == spec_get_cull_mode(cull_mode),
        forall|front_facing: bool| #[trigger] vk_culled(r as int, front_facing) == culled(cull_mode, front_facing),
{
    proof {
        lemma_cull_mode_meaning(cull_mode, true);
        lemma_cull_mode_meaning(cull_mode, false);
        assert forall|front_facing: bool| #[trigger] vk_culled(spec_get_cull_mode(cull_mode) as int, front_facing)
            == culled(cull_mode, front_facing) by {
            lemma_cull_mode_meaning(cull_mode, front_facing);
        }
    }
    match cull_mode {
        RenderCullMode::CullNone => vulkan::CULL_MODE_NONE,
        RenderCullMode::Front => vulkan::CULL_MODE_FRONT,
        RenderCullMode::Back => vulkan::CULL_MODE_BACK,
    }
}

#[derive(Clone, Copy, Debug, PartialEq, Eq, Structural)]
pub enum RenderBlendMode {
    Zero,
    One,
    SourceColor,
    InvSourceColor,
    SourceAlpha,
    InvSourceAlpha,
    DestColor,
    InvDestColor,
    DestAlpha,
    InvDestAlpha,
    SourceAlphaSaturate,
    Constant,
    InvConstant,
    Source1Color,
    InvSource1Color,
    Source1Alpha,
    InvSource1Alpha,
}

/// Vulkan blend factor of a blend mode.
pub open spec fn spec_get_blend_factor(mode: RenderBlendMode) -> i32 {
    match mode {
        RenderBlendMode::Zero => vulkan::BLEND_FACTOR_ZERO,
        RenderBlendMode::One => vulkan::BLEND_FACTOR_ONE,
        RenderBlendMode::SourceColor => vulkan::BLEND_FACTOR_SRC_COLOR,
        RenderBlendMode::InvSourceColor => vulkan::BLEND_FACTOR_ONE_MINUS_SRC_COLOR,
        RenderBlendMode::SourceAlpha => vulkan::BLEND_FACTOR_SRC_ALPHA,
        RenderBlendMode::InvSourceAlpha => vulkan::BLEND_FACTOR_ONE_MINUS_SRC_ALPHA,
        RenderBlendMode::DestColor => vulkan::BLEND_FACTOR_DST_COLOR,
        RenderBlendMode::InvDestColor => vulkan::BLEND_FACTOR_ONE_MINUS_DST_COLOR,
        RenderBlendMode::DestAlpha => vulkan::BLEND_FACTOR_DST_ALPHA,
        RenderBlendMode::InvDestAlpha => vulkan::BLEND_FACTOR_ONE_MINUS_DST_ALPHA,
        RenderBlendMode::SourceAlphaSaturate => vulkan::BLEND_FACTOR_SRC_ALPHA_SATURATE,
        RenderBlendMode::Constant => vulkan::BLEND_FACTOR_CONSTANT_COLOR,
        RenderBlendMode::InvConstant => vulkan::BLEND_FACTOR_ONE_MINUS_CONSTANT_COLOR,
        RenderBlendMode::Source1Color => vulkan::BLEND_FACTOR_SRC1_COLOR,
        RenderBlendMode::InvSource1Color => vulkan::BLEND_FACTOR_ONE_MINUS_SRC1_COLOR,
        RenderBlendMode::Source1Alpha => vulkan::BLEND_FACTOR_SRC1_ALPHA,
        RenderBlendMode::InvSource1Alpha => vulkan::BLEND_FACTOR_ONE_MINUS_SRC1_ALPHA,
    }
}

/// The factor a blend mode weighs a color channel with, in a fixed-point
/// scale where `one` stands for 1: from the source color and alpha, the
/// destination color and alpha, the blend constant and the second source
/// color and alpha.
pub open spec fn blend_factor_value(
    mode: RenderBlendMode, one: int, src: int, src_a: int, dst: int, dst_a: int, konst: int, src1: int, src1_a: int,
) -> int {
    match mode {
        RenderBlendMode::Zero => 0,
        RenderBlendMode::One => one,
        RenderBlendMode::SourceColor => src,
        RenderBlendMode::InvSourceColor => one - src,
        RenderBlendMode::SourceAlpha => src_a,
        RenderBlendMode::InvSourceAlpha => one - src_a,
        RenderBlendMode::DestColor => dst,
        RenderBlendMode::InvDestColor => one - dst,
        RenderBlendMode::DestAlpha => dst_a,
        RenderBlendMode::InvDestAlpha => one - dst_a,
        RenderBlendMode::SourceAlphaSaturate => if src_a <= one - dst_a { src_a } else { one - dst_a },
        RenderBlendMode::Constant => konst,
        RenderBlendMode::InvConstant => one - konst,
        RenderBlendMode::Source1Color => src1,
        RenderBlendMode::InvSource1Color => one - src1,
        RenderBlendMode::Source1Alpha => src1_a,
        RenderBlendMode::InvSource1Alpha => one - src1_a,
    }
}

/// The factor a Vulkan blend factor weighs a color channel with, by the
/// numbers Vulkan gives its blend factors (the constant alpha factors, which
/// no blend mode uses, are left out).
pub open spec fn vk_blend_factor_value(
    factor: int, one: int, src: int, src_a: int, dst: int, dst_a: int, konst: int, src1: int, src1_a: int,
) -> Option<int> {
    if factor == 0 { Some(0) }
    else if factor == 1 { Some(one) }
    else if factor == 2 { Some(src) }
    else if factor == 3 { Some(one - src) }
    else if factor == 4 { Some(dst) }
    else if factor == 5 { Some(one - dst) }
    else if factor == 6 { Some(src_a) }
    else if factor == 7 { Some(one - src_a) }
    else if factor == 8 { Some(dst_a) }
    else if factor == 9 { Some(one - dst_a) }
    else if factor == 10 { Some(konst) }
    else if factor == 11 { Some(one - konst) }
    else if factor == 14 { Some(if src_a <= one - dst_a { src_a } else { one - dst_a }) }
    else if factor == 15 { Some(src1) }
    else if factor == 16 { Some(one - src1) }
    else if factor == 17 { Some(src1_a) }
    else if factor == 18 { Some(one - src1_a) }
    else { None }
}

/// A blend mode becomes the Vulkan blend factor of the same meaning: on
/// every input the factor weighs a channel exactly as the mode does.
pub proof fn lemma_blend_factor_meaning(
    mode: RenderBlendMode, one: int, src: int, src_a: int, dst: int, dst_a: int, konst: int, src1: int, src1_a: int,
)
    ensures
        vk_blend_factor_value(spec_get_blend_factor(mode) as int, one, src, src_a, dst, dst_a, konst, src1, src1_a)
            == Some(blend_factor_value(mode, one, src, src_a, dst, dst_a, konst, src1, src1_a)),
{
}

/// Vulkan blend factor of a blend mode.
pub fn get_blend_factor(mode: RenderBlendMode) -> (r: i32)
    ensures
        r == spec_get_blend_factor(mode),
        forall|one: int, src: int, src_a: int, dst: int, dst_a: int, konst: int, src1: int, src1_a: int|
            #[trigger] vk_blend_factor_value(r as int, one, src, src_a, dst, dst_a, konst, src1, src1_a)
                == Some(blend_factor_value(mode, one, src, src_a, dst, dst_a, konst, src1, src1_a)),
{
    proof {
        assert forall|one: int, src: int, src_a: int, dst: int, dst_a: int, konst: int, src1: int, src1_a: int|
            #[trigger] vk_blend_factor_value(spec_get_blend_factor(mode) as int, one, src, src_a, dst, dst_a, konst, src1, src1_a)
                == Some(blend_factor_value(mode, one, src, src_a, dst, dst_a, konst, src1, src1_a)) by {
            lemma_blend_factor_meaning(mode, one, src, src_a, dst, dst_a, konst, src1, src1_a);
        }
    }
    match mode {
        RenderBlendMode::Zero => vulkan::BLEND_FACTOR_ZERO,
        RenderBlendMode::One => vulkan::BLEND_FACTOR_ONE,
        RenderBlendMode::SourceColor => vulkan::BLEND_FACTOR_SRC_COLOR,
        RenderBlendMode::InvSourceColor => vulkan::BLEND_FACTOR_ONE_MINUS_SRC_COLOR,
        RenderBlendMode::SourceAlpha => vulkan::BLEND_FACTOR_SRC_ALPHA,
        RenderBlendMode::InvSourceAlpha => vulkan::BLEND_FACTOR_ONE_MINUS_SRC_ALPHA,
        RenderBlendMode::DestColor => vulkan::BLEND_FACTOR_DST_COLOR,
        RenderBlendMode::InvDestColor => vulkan::BLEND_FACTOR_ONE_MINUS_DST_COLOR,
        RenderBlendMode::DestAlpha => vulkan::BLEND_FACTOR_DST_ALPHA,
        RenderBlendMode::InvDestAlpha => vulkan::BLEND_FACTOR_ONE_MINUS_DST_ALPHA,
        RenderBlendMode::SourceAlphaSaturate => vulkan::BLEND_FACTOR_SRC_ALPHA_SATURATE,
        RenderBlendMode::Constant => vulkan::BLEND_FACTOR_CONSTANT_COLOR,
        RenderBlendMode::InvConstant => vulkan::BLEND_FACTOR_ONE_MINUS_CONSTANT_COLOR,
        RenderBlendMode::Source1Color => vulkan::BLEND_FACTOR_SRC1_COLOR,
        RenderBlendMode::InvSource1Color => vulkan::BLEND_FACTOR_ONE_MINUS_SRC1_COLOR,
        RenderBlendMode::Source1Alpha => vulkan::BLEND_FACTOR_SRC1_ALPHA,
        RenderBlendMode::InvSource1Alpha => vulkan::BLEND_FACTOR_ONE_MINUS_SRC1_ALPHA,
    }
}

#[derive(Clone, Copy, Debug, PartialEq, Eq, Structural)]
pub enum RenderBlendOp {
    Add,
    Subtract,
    RevSubtract,
    Min,
    Max,
}

/// Vulkan blend operation of a blend operation.
pub open spec fn spec_get_blend_op(op: RenderBlendOp) -> i32 {
    match op {
        RenderBlendOp::Add => vulkan::BLEND_OP_ADD,
        RenderBlendOp::Subtract => vulkan::BLEND_OP_SUBTRACT,
        RenderBlendOp::RevSubtract => vulkan::BLEND_OP_REVERSE_SUBTRACT,
        RenderBlendOp::Min => vulkan::BLEND_OP_MIN,
        RenderBlendOp::Max => vulkan::BLEND_OP_MAX,
    }
}

/// How a blend operation combines the weighted source term `s` and the
/// weighted destination term `d`.
pub open spec fn blend_op_value(op: RenderBlendOp, s: int, d: int) -> int {
    match op {
        RenderBlendOp::Add => s + d,
        RenderBlendOp::Subtract => s - d,
        RenderBlendOp::RevSubtract => d - s,
        RenderBlendOp::Min => if s <= d { s } else { d },
        RenderBlendOp::Max => if s >= d { s } else { d },
    }
}

/// How a Vulkan blend operation combines the two terms, by the numbers
/// Vulkan gives its blend operations.
pub open spec fn vk_blend_op_value(op: int, s: int, d: int) -> Option<int> {
    if op == 0 { Some(s + d) }
    else if op == 1 { Some(s - d) }
    else if op == 2 { Some(d - s) }
    else if op == 3 { Some(if s <= d { s } else { d }) }
    else if op == 4 { Some(if s >= d { s } else { d }) }
    else { None }
}

/// A blend operation becomes the Vulkan blend operation of the same
/// meaning: on every pair of terms both combine them alike.
pub proof fn lemma_blend_op_meaning(op: RenderBlendOp, s: int, d: int)
    ensures
        vk_blend_op_value(spec_get_blend_op(op) as int, s, d) == Some(blend_op_value(op, s, d)),
{
}

/// Vulkan blend operation of a blend operation.
pub fn get_blend_op(op: RenderBlendOp) -> (r: i32)
    ensures
        r == spec_get_blend_op(op),
        forall|s: int, d: int| #[trigger] vk_blend_op_value(r as int, s, d) == Some(blend_op_value(op, s, d)),
{
    proof {
        assert forall|s: int, d: int| #[trigger] vk_blend_op_value(spec_get_blend_op(op) as int, s, d)
            == Some(blend_op_value(op, s, d)) by {
            lemma_blend_op_meaning(op, s, d);
        }
    }
    match op {
        RenderBlendOp::Add => vulkan::BLEND_OP_ADD,
        RenderBlendOp::Subtract => vulkan::BLEND_OP_SUBTRACT,
        RenderBlendOp::RevSubtract => vulkan::BLEND_OP_REVERSE_SUBTRACT,
        RenderBlendOp::Min => vulkan::BLEND_OP_MIN,
        RenderBlendOp::Max => vulkan::BLEND_OP_MAX,
    }
}

#[derive(Clone, Copy, Debug, PartialEq, Eq, Structural)]
pub enum RenderStencilOp {
    Keep,
    Zero,
    Replace,
    IncrementSaturate,
    IncrementWrap,
    DecrementSaturate,
    DecrementWrap,
    Invert,
}

/// Vulkan stencil operation of a stencil operation.
pub open spec fn spec_get_stencil_op(op: RenderStencilOp) -> i32 {
    match op {
        RenderStencilOp::Keep => vulkan::STENCIL_OP_KEEP,
        RenderStencilOp::Zero => vulkan::STENCIL_OP_ZERO,
        RenderStencilOp::Replace => vulkan::STENCIL_OP_REPLACE,
        RenderStencilOp::IncrementSaturate => vulkan::STENCIL_OP_INCREMENT_AND_CLAMP,
        RenderStencilOp::IncrementWrap => vulkan::STENCIL_OP_INCREMENT_AND_WRAP,
        RenderStencilOp::DecrementSaturate => vulkan::STENCIL_OP_DECREMENT_AND_CLAMP,
        RenderStencilOp::DecrementWrap => vulkan::STENCIL_OP_DECREMENT_AND_WRAP,
        RenderStencilOp::Invert => vulkan::STENCIL_OP_INVERT,
    }
}

/// The stencil value a stencil operation leaves, from the current 8-bit
/// value `v` and the reference value `reference`.
pub open spec fn stencil_op_value(op: RenderStencilOp, v: int, reference: int) -> int {
    match op {
        RenderStencilOp::Keep => v,
        RenderStencilOp::Zero => 0,
        RenderStencilOp::Replace => reference,
        RenderStencilOp::IncrementSaturate => if v < 255 { v + 1 } else { 255 },
        RenderStencilOp::IncrementWrap => if v < 255 { v + 1 } else { 0 },
        RenderStencilOp::DecrementSaturate => if v > 0 { v - 1 } else { 0 },
        RenderStencilOp::DecrementWrap => if v > 0 { v - 1 } else { 255 },
        RenderStencilOp::Invert => 255 - v,
    }
}

/// The stencil value a Vulkan stencil operation leaves, by the numbers
/// Vulkan gives its stencil operations.
pub open spec fn vk_stencil_op_value(op: int, v: int, reference: int) -> Option<int> {
    if op == 0 { Some(v) }
    else if op == 1 { Some(0) }
    else if op == 2 { Some(reference) }
    else if op == 3 { Some(if v < 255 { v + 1 } else { 255 }) }
    else if op == 4 { Some(if v > 0 { v - 1 } else { 0 }) }
    else if op == 5 { Some(255 - v) }
    else if op == 6 { Some(if v < 255 { v + 1 } else { 0 }) }
    else if op == 7 { Some(if v > 0 { v - 1 } else { 255 }) }
    else { None }
}

/// A stencil operation becomes the Vulkan stencil operation of the same
/// meaning: on every stencil value and reference both leave the same value.
pub proof fn lemma_stencil_op_meaning(op: RenderStencilOp, v: int, reference: int)
    ensures
        vk_stencil_op_value(spec_get_stencil_op(op) as int, v, reference) == Some(stencil_op_value(op, v, reference)),
{
}

/// Vulkan stencil operation of a stencil operation.
pub fn get_stencil_op(op: RenderStencilOp) -> (r: i32)
    ensures
        r == spec_get_stencil_op(op),
        forall|v: int, reference: int| #[trigger] vk_stencil_op_value(r as int, v, reference)
            == Some(stencil_op_value(op, v, reference)),
{
    proof {
        assert forall|v: int, reference: int| #[trigger] vk_stencil_op_value(spec_get_stencil_op(op) as int, v, reference)
            == Some(stencil_op_value(op, v, reference)) by {
            lemma_stencil_op_meaning(op, v, reference);
        }
    }
    match op {
        RenderStencilOp::Keep => vulkan::STENCIL_OP_KEEP,
        RenderStencilOp::Zero => vulkan::STENCIL_OP_ZERO,
        RenderStencilOp::Replace => vulkan::STENCIL_OP_REPLACE,
        RenderStencilOp::IncrementSaturate => vulkan::STENCIL_OP_INCREMENT_AND_CLAMP,
        RenderStencilOp::IncrementWrap => vulkan::STENCIL_OP_INCREMENT_AND_WRAP,
        RenderStencilOp::DecrementSaturate => vulkan::STENCIL_OP_DECREMENT_AND_CLAMP,
        RenderStencilOp::DecrementWrap => vulkan::STENCIL_OP_DECREMENT_AND_WRAP,
        RenderStencilOp::Invert => vulkan::STENCIL_OP_INVERT,
    }
}

#[derive(Clone, Copy, Debug, PartialEq, Eq, Structural)]
pub enum RenderCompareFunc {
    Never,
    Less,
    Equal,
    LessEqual,
    Greater,
    NotEqual,
    GreaterEqual,
    Always,
}

/// Vulkan compare operation of a comparison function.
pub open spec fn spec_get_compare_op(func: RenderCompareFunc) -> i32 {
    match func {
        RenderCompareFunc::Never => vulkan::COMPARE_OP_NEVER,
        RenderCompareFunc::Less => vulkan::COMPARE_OP_LESS,
        RenderCompareFunc::Equal => vulkan::COMPARE_OP_EQUAL,
        RenderCompareFunc::LessEqual => vulkan::COMPARE_OP_LESS_OR_EQUAL,
        RenderCompareFunc::Greater => vulkan::COMPARE_OP_GREATER,
        RenderCompareFunc::NotEqual => vulkan::COMPARE_OP_NOT_EQUAL,
        RenderCompareFunc::GreaterEqual => vulkan::COMPARE_OP_GREATER_OR_EQUAL,
        RenderCompareFunc::Always => vulkan::COMPARE_OP_ALWAYS,
    }
}

/// Whether a comparison function passes for a reference value `a` and a
/// tested value `b`.
pub open spec fn compare_passes(func: RenderCompareFunc, a: int, b: int) -> bool {
    match func {
        RenderCompareFunc::Never => false,
        RenderCompareFunc::Less => a < b,
        RenderCompareFunc::Equal => a == b,
        RenderCompareFunc::LessEqual => a <= b,
        RenderCompareFunc::Greater => a > b,
        RenderCompareFunc::NotEqual => a != b,
        RenderCompareFunc::GreaterEqual => a >= b,
        RenderCompareFunc::Always => true,
    }
}

/// Whether a Vulkan compare operation passes for a reference value `a` and
/// a tested value `b`. Vulkan numbers its operations so that the lowest bit
/// accepts `a < b`, the next `a == b` and the third `a > b`.
pub open spec fn vk_compare_passes(op: int, a: int, b: int) -> bool {
    &&& 0 <= op < 8
    &&& {
        ||| a < b && op % 2 == 1
        ||| a == b && (op / 2) % 2 == 1
        ||| a > b && (op / 4) % 2 == 1
    }
}

/// A comparison function becomes the Vulkan compare operation of the same
/// meaning: on every pair of values the operation passes exactly when the
/// function does.
pub proof fn lemma_compare_op_meaning(func: RenderCompareFunc, a: int, b: int)
    ensures
        vk_compare_passes(spec_get_compare_op(func) as int, a, b) == compare_passes(func, a, b),
{
}

/// Vulkan compare operation of a comparison function.
pub fn get_compare_op(func: RenderCompareFunc) -> (r: i32)
    ensures
        r == spec_get_compare_op(func),
        forall|a: int, b: int| #[trigger] vk_compare_passes(r as int, a, b) == compare_passes(func, a, b),
        func == RenderCompareFunc::Never ==> r == vulkan::COMPARE_OP_NEVER,
        func == RenderCompareFunc::Less ==> r == vulkan::COMPARE_OP_LESS,
        func == RenderCompareFunc::Equal ==> r == vulkan::COMPARE_OP_EQUAL,
        func == RenderCompareFunc::LessEqual ==> r == vulkan::COMPARE_OP_LESS_OR_EQUAL,
        func == RenderCompareFunc::Greater ==> r == vulkan::COMPARE_OP_GREATER,
        func == RenderCompareFunc::NotEqual ==> r == vulkan::COMPARE_OP_NOT_EQUAL,
        func == RenderCompareFunc::GreaterEqual ==> r == vulkan::COMPARE_OP_GREATER_OR_EQUAL,
        func == RenderCompareFunc::Always ==> r == vulkan::COMPARE_OP_ALWAYS,
{
    proof {
        assert forall|a: int, b: int| #[trigger] vk_compare_passes(spec_get_compare_op(func) as int, a, b) == compare_passes(func, a, b) by {
            lemma_compare_op_meaning(func, a, b);
        }
    }
    match func {
        RenderCompareFunc::Never => vulkan::COMPARE_OP_NEVER,
        RenderCompareFunc::Less => vulkan::COMPARE_OP_LESS,
        RenderCompareFunc::Equal => vulkan::COMPARE_OP_EQUAL,
        RenderCompareFunc::LessEqual => vulkan::COMPARE_OP_LESS_OR_EQUAL,
        RenderCompareFunc::Greater => vulkan::COMPARE_OP_GREATER,
        RenderCompareFunc::NotEqual => vulkan::COMPARE_OP_NOT_EQUAL,
        RenderCompareFunc::GreaterEqual => vulkan::COMPARE_OP_GREATER_OR_EQUAL,
        RenderCompareFunc::Always => vulkan::COMPARE_OP_ALWAYS,
    }
}

/// Formats with a depth channel.
pub open spec fn spec_format_has_depth(format: RenderFormat) -> bool {
    ||| format == RenderFormat::D24UnormS8Uint
    ||| format == RenderFormat::D32FloatS8Uint
    ||| format == RenderFormat::D16Unorm
    ||| format == RenderFormat::D32Float
}

/// Formats with a stencil channel.
pub open spec fn spec_format_has_stencil(format: RenderFormat) -> bool {
    format == RenderFormat::D24UnormS8Uint || format == RenderFormat::D32FloatS8Uint
}

/// Whether the format has a depth channel.
pub fn format_has_depth(format: RenderFormat) -> (r: bool)
    ensures
        r == spec_format_has_depth(format),
{
    match format {
        RenderFormat::D24UnormS8Uint | RenderFormat::D32FloatS8Uint | RenderFormat::D16Unorm | RenderFormat::D32Float => true,
        _ => false,
    }
}

/// Whether the format has a stencil channel.
pub fn format_has_stencil(format: RenderFormat) -> (r: bool)
    ensures
        r == spec_format_has_stencil(format),
{
    match format {
        RenderFormat::D24UnormS8Uint | RenderFormat::D32FloatS8Uint => true,
        _ => false,
    }
}

/// Image aspects of a format: depth if it has depth, stencil if it has
/// stencil and stencil is not ignored, and color when neither applies.
pub open spec fn spec_image_aspect_flags(format: RenderFormat, ignore_stencil: bool) -> u32 {
    let depth = spec_format_has_depth(format);
    let stencil = spec_format_has_stencil(format) && !ignore_stencil;
    if depth && stencil {
        vulkan::IMAGE_ASPECT_DEPTH | vulkan::IMAGE_ASPECT_STENCIL
    } else if depth {
        vulkan::IMAGE_ASPECT_DEPTH
    } else if stencil {
        vulkan::IMAGE_ASPECT_STENCIL
    } else {
        vulkan::IMAGE_ASPECT_COLOR
    }
}

/// The aspect word of an image with or without depth and stencil aspects.
pub open spec fn aspect_word(depth: bool, stencil: bool) -> u32 {
    if depth && stencil {
        vulkan::IMAGE_ASPECT_DEPTH | vulkan::IMAGE_ASPECT_STENCIL
    } else if depth {
        vulkan::IMAGE_ASPECT_DEPTH
    } else if stencil {
        vulkan::IMAGE_ASPECT_STENCIL
    } else {
        vulkan::IMAGE_ASPECT_COLOR
    }
}

proof fn lemma_aspect_word_bits(depth: bool, stencil: bool)
    by (bit_vector)
    ensures
        (aspect_word(depth, stencil) & 2u32 != 0) == depth,
        (aspect_word(depth, stencil) & 4u32 != 0) == stencil,
        (aspect_word(depth, stencil) & 1u32 != 0) == (!depth && !stencil),
        aspect_word(depth, stencil) < 8u32,
{
}

/// The aspects a view or barrier covers are those the format has: the depth
/// aspect for a format with depth, the stencil aspect for one with stencil
/// (unless stencil is to be left out), and the color aspect for any other.
pub proof fn lemma_image_aspects_of_format(format: RenderFormat, ignore_stencil: bool)
    ensures
        ({
            let r = spec_image_aspect_flags(format, ignore_stencil);
            &&& (r & vulkan::IMAGE_ASPECT_DEPTH != 0) == spec_format_has_depth(format)
            &&& (r & vulkan::IMAGE_ASPECT_STENCIL != 0) == (spec_format_has_stencil(format) && !ignore_stencil)
            &&& (r & vulkan::IMAGE_ASPECT_COLOR != 0)
                == (!spec_format_has_depth(format) && !(spec_format_has_stencil(format) && !ignore_stencil))
            &&& r < 8
        }),
{
    let depth = spec_format_has_depth(format);
    let stencil = spec_format_has_stencil(format) && !ignore_stencil;
    lemma_aspect_word_bits(depth, stencil);
    assert(spec_image_aspect_flags(format, ignore_stencil) == aspect_word(depth, stencil));
}

pub fn get_image_aspect_flags(format: RenderFormat, ignore_stencil: bool) -> (r: u32)
    ensures
        r == spec_image_aspect_flags(format, ignore_stencil),
        (r & vulkan::IMAGE_ASPECT_DEPTH != 0) == spec_format_has_depth(format),
        (r & vulkan::IMAGE_ASPECT_STENCIL != 0) == (spec_format_has_stencil(format) && !ignore_stencil),
{
    proof {
        lemma_image_aspects_of_format(format, ignore_stencil);
    }
    let depth = format_has_depth(format);
    let stencil = format_has_stencil(format) && !ignore_stencil;
    if depth && stencil {
        vulkan::IMAGE_ASPECT_DEPTH | vulkan::IMAGE_ASPECT_STENCIL
    } else if depth {
        vulkan::IMAGE_ASPECT_DEPTH
    } else if stencil {
        vulkan::IMAGE_ASPECT_STENCIL
    } else {
        vulkan::IMAGE_ASPECT_COLOR
    }
}

/// Primitive types of the renderer.
#[derive(Clone, Copy, Debug, PartialEq, Eq, Structural)]
pub enum RenderPrimitiveType {
    PointList,
    LineList,
    LineStrip,
    TriangleList,
    TriangleStrip,
    TrianglePatch,
    RectList,
    QuadList,
}

/// Primitive types that Vulkan can draw directly.
pub open spec fn spec_topology_supported(topology: RenderPrimitiveType) -> bool {
    topology != RenderPrimitiveType::RectList && topology != RenderPrimitiveType::QuadList
}

pub open spec fn spec_get_primitive_topology(topology: RenderPrimitiveType) -> i32 {
    match topology {
        RenderPrimitiveType::PointList => vulkan::PRIMITIVE_TOPOLOGY_POINT_LIST,
        RenderPrimitiveType::LineList => vulkan::PRIMITIVE_TOPOLOGY_LINE_LIST,
        RenderPrimitiveType::LineStrip => vulkan::PRIMITIVE_TOPOLOGY_LINE_STRIP,
        RenderPrimitiveType::TriangleList => vulkan::PRIMITIVE_TOPOLOGY_TRIANGLE_LIST,
        RenderPrimitiveType::TriangleStrip => vulkan::PRIMITIVE_TOPOLOGY_TRIANGLE_STRIP,
        _ => vulkan::PRIMITIVE_TOPOLOGY_PATCH_LIST,
    }
}

/// How many primitives a primitive type makes of `v` vertices (for the
/// types that are not patches): each point, each pair of a line list, each
/// triple of a triangle list, each vertex after the first of a line strip
/// and each after the second of a triangle strip.
pub open spec fn primitive_count(topology: RenderPrimitiveType, v: int) -> int {
    match topology {
        RenderPrimitiveType::PointList => v,
        RenderPrimitiveType::LineList => v / 2,
        RenderPrimitiveType::LineStrip => if v >= 1 { v - 1 } else { 0 },
        RenderPrimitiveType::TriangleList => v / 3,
        RenderPrimitiveType::TriangleStrip => if v >= 2 { v - 2 } else { 0 },
        _ => 0,
    }
}

/// How many primitives a Vulkan topology makes of `v` vertices, by the
/// numbers Vulkan gives its list and strip topologies.
pub open spec fn vk_primitive_count(topology: int, v: int) -> Option<int> {
    if topology == 0 { Some(v) }
    else if topology == 1 { Some(v / 2) }
    else if topology == 2 { Some(if v >= 1 { v - 1 } else { 0 }) }
    else if topology == 3 { Some(v / 3) }
    else if topology == 4 { Some(if v >= 2 { v - 2 } else { 0 }) }
    else { None }
}

/// A primitive type becomes the Vulkan topology that assembles vertices
/// into the same primitives; triangle patches become Vulkan's patch list.
pub proof fn lemma_primitive_topology_meaning(topology: RenderPrimitiveType, v: int)
    requires
        spec_topology_supported(topology),
    ensures
        topology != RenderPrimitiveType::TrianglePatch
            ==> vk_primitive_count(spec_get_primitive_topology(topology) as int, v) == Some(primitive_count(topology, v)),
        (spec_get_primitive_topology(topology) == 10) == (topology == RenderPrimitiveType::TrianglePatch),
{
}

/// Vulkan topology of a primitive type; rectangle and quad lists have no
/// Vulkan equivalent.
pub fn get_primitive_topology(topology: RenderPrimitiveType) -> (r: i32)
    requires
        spec_topology_supported(topology),
    ensures
        r == spec_get_primitive_topology(topology),
        forall|v: int| topology != RenderPrimitiveType::TrianglePatch
            ==> #[trigger] vk_primitive_count(r as int, v) == Some(primitive_count(topology, v)),
        (r == vulkan::PRIMITIVE_TOPOLOGY_PATCH_LIST) == (topology == RenderPrimitiveType::TrianglePatch),
{
    proof {
        lemma_primitive_topology_meaning(topology, 0);
        assert forall|v: int| topology != RenderPrimitiveType::TrianglePatch
            implies #[trigger] vk_primitive_count(spec_get_primitive_topology(topology) as int, v)
                == Some(primitive_count(topology, v)) by {
            lemma_primitive_topology_meaning(topology, v);
        }
    }
    match topology {
        RenderPrimitiveType::PointList => vulkan::PRIMITIVE_TOPOLOGY_POINT_LIST,
        RenderPrimitiveType::LineList => vulkan::PRIMITIVE_TOPOLOGY_LINE_LIST,
        RenderPrimitiveType::LineStrip => vulkan::PRIMITIVE_TOPOLOGY_LINE_STRIP,
        RenderPrimitiveType::TriangleList => vulkan::PRIMITIVE_TOPOLOGY_TRIANGLE_LIST,
        RenderPrimitiveType::TriangleStrip => vulkan::PRIMITIVE_TOPOLOGY_TRIANGLE_STRIP,
        _ => vulkan::PRIMITIVE_TOPOLOGY_PATCH_LIST,
    }
}

/// One side of the stencil state.
#[derive(Clone, Copy, Debug, PartialEq, Eq, Structural)]
pub struct RenderStencilSide {
    pub fail_op: RenderStencilOp,
    pub depth_fail_op: RenderStencilOp,
    pub pass_op: RenderStencilOp,
    pub func: RenderCompareFunc,
}

/// Vulkan stencil operation state (`VkStencilOpState`).
#[derive(Clone, Copy, Debug, PartialEq, Eq, Structural)]
pub struct StencilOpState {
    pub fail_op: i32,
    pub pass_op: i32,
    pub depth_fail_op: i32,
    pub compare_op: i32,
    pub compare_mask: u32,
    pub write_mask: u32,
    pub reference: u32,
}

/// Stencil state of one side; the reference is left 0 because it is set
/// as dynamic state.
pub fn get_stencil_op_state(desc: &RenderStencilSide, read_mask: u8, write_mask: u8) -> (r: StencilOpState)
    ensures
        r.fail_op == spec_get_stencil_op(desc.fail_op),
        r.pass_op == spec_get_stencil_op(desc.pass_op),
        r.depth_fail_op == spec_get_stencil_op(desc.depth_fail_op),
        r.compare_op == spec_get_compare_op(desc.func),
        r.compare_mask == read_mask as u32,
        r.write_mask == write_mask as u32,
        r.reference == 0,
{
    StencilOpState {
        fail_op: get_stencil_op(desc.fail_op),
        pass_op: get_stencil_op(desc.pass_op),
        depth_fail_op: get_stencil_op(desc.depth_fail_op),
        compare_op: get_compare_op(desc.func),
        compare_mask: read_mask as u32,
        write_mask: write_mask as u32,
        reference: 0,
    }
}

} // verus!
