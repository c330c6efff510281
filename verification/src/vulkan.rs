//! Raw values of the Vulkan enumerations and flag bits that the
//! backend chooses between. Enumerations are signed 32-bit codes and
//! flag sets are unsigned 32-bit masks, as in the Vulkan headers.

use vstd::prelude::*;

verus! {

// Result
pub const RESULT_SUCCESS: i32 = 0;
pub const RESULT_NOT_READY: i32 = 1;
pub const RESULT_TIMEOUT: i32 = 2;
pub const RESULT_ERROR_OUT_OF_HOST_MEMORY: i32 = -1;
pub const RESULT_ERROR_OUT_OF_DEVICE_MEMORY: i32 = -2;
pub const RESULT_ERROR_INITIALIZATION_FAILED: i32 = -3;
pub const RESULT_ERROR_DEVICE_LOST: i32 = -4;
pub const RESULT_ERROR_LAYER_NOT_PRESENT: i32 = -6;
pub const RESULT_ERROR_EXTENSION_NOT_PRESENT: i32 = -7;
pub const RESULT_ERROR_FEATURE_NOT_PRESENT: i32 = -8;
pub const RESULT_ERROR_INCOMPATIBLE_DRIVER: i32 = -9;
pub const RESULT_ERROR_TOO_MANY_OBJECTS: i32 = -10;
pub const RESULT_ERROR_SURFACE_LOST_KHR: i32 = -1000000000;
pub const RESULT_ERROR_NATIVE_WINDOW_IN_USE_KHR: i32 = -1000000001;
pub const RESULT_SUBOPTIMAL_KHR: i32 = 1000001003;
pub const RESULT_ERROR_OUT_OF_DATE_KHR: i32 = -1000001004;

// ImageAspectFlags
pub const IMAGE_ASPECT_COLOR: u32 = 1;
pub const IMAGE_ASPECT_DEPTH: u32 = 2;
pub const IMAGE_ASPECT_STENCIL: u32 = 4;

// PrimitiveTopology
pub const PRIMITIVE_TOPOLOGY_POINT_LIST: i32 = 0;
pub const PRIMITIVE_TOPOLOGY_LINE_LIST: i32 = 1;
pub const PRIMITIVE_TOPOLOGY_LINE_STRIP: i32 = 2;
pub const PRIMITIVE_TOPOLOGY_TRIANGLE_LIST: i32 = 3;
pub const PRIMITIVE_TOPOLOGY_TRIANGLE_STRIP: i32 = 4;
pub const PRIMITIVE_TOPOLOGY_PATCH_LIST: i32 = 10;

// PolygonMode
pub const POLYGON_MODE_FILL: i32 = 0;
pub const POLYGON_MODE_LINE: i32 = 1;

// CullModeFlags
pub const CULL_MODE_NONE: u32 = 0;
pub const CULL_MODE_FRONT: u32 = 1;
pub const CULL_MODE_BACK: u32 = 2;

// BlendFactor
pub const BLEND_FACTOR_ZERO: i32 = 0;
pub const BLEND_FACTOR_ONE: i32 = 1;
pub const BLEND_FACTOR_SRC_COLOR: i32 = 2;
pub const BLEND_FACTOR_ONE_MINUS_SRC_COLOR: i32 = 3;
pub const BLEND_FACTOR_SRC_ALPHA: i32 = 6;
pub const BLEND_FACTOR_ONE_MINUS_SRC_ALPHA: i32 = 7;
pub const BLEND_FACTOR_DST_COLOR: i32 = 4;
pub const BLEND_FACTOR_ONE_MINUS_DST_COLOR: i32 = 5;
pub const BLEND_FACTOR_DST_ALPHA: i32 = 8;
pub const BLEND_FACTOR_ONE_MINUS_DST_ALPHA: i32 = 9;
pub const BLEND_FACTOR_SRC_ALPHA_SATURATE: i32 = 14;
pub const BLEND_FACTOR_CONSTANT_COLOR: i32 = 10;
pub const BLEND_FACTOR_ONE_MINUS_CONSTANT_COLOR: i32 = 11;
pub const BLEND_FACTOR_SRC1_COLOR: i32 = 15;
pub const BLEND_FACTOR_ONE_MINUS_SRC1_COLOR: i32 = 16;
pub const BLEND_FACTOR_SRC1_ALPHA: i32 = 17;
pub const BLEND_FACTOR_ONE_MINUS_SRC1_ALPHA: i32 = 18;

// BlendOp
pub const BLEND_OP_ADD: i32 = 0;
pub const BLEND_OP_SUBTRACT: i32 = 1;
pub const BLEND_OP_REVERSE_SUBTRACT: i32 = 2;
pub const BLEND_OP_MIN: i32 = 3;
pub const BLEND_OP_MAX: i32 = 4;

// StencilOp
pub const STENCIL_OP_KEEP: i32 = 0;
pub const STENCIL_OP_ZERO: i32 = 1;
pub const STENCIL_OP_REPLACE: i32 = 2;
pub const STENCIL_OP_INCREMENT_AND_CLAMP: i32 = 3;
pub const STENCIL_OP_INCREMENT_AND_WRAP: i32 = 6;
pub const STENCIL_OP_DECREMENT_AND_CLAMP: i32 = 4;
pub const STENCIL_OP_DECREMENT_AND_WRAP: i32 = 7;
pub const STENCIL_OP_INVERT: i32 = 5;

// CompareOp
pub const COMPARE_OP_NEVER: i32 = 0;
pub const COMPARE_OP_LESS: i32 = 1;
pub const COMPARE_OP_EQUAL: i32 = 2;
pub const COMPARE_OP_LESS_OR_EQUAL: i32 = 3;
pub const COMPARE_OP_GREATER: i32 = 4;
pub const COMPARE_OP_NOT_EQUAL: i32 = 5;
pub const COMPARE_OP_GREATER_OR_EQUAL: i32 = 6;
pub const COMPARE_OP_ALWAYS: i32 = 7;

// ImageType
pub const IMAGE_TYPE_TYPE_1D: i32 = 0;
pub const IMAGE_TYPE_TYPE_2D: i32 = 1;
pub const IMAGE_TYPE_TYPE_3D: i32 = 2;

// ImageViewType
pub const IMAGE_VIEW_TYPE_TYPE_1D: i32 = 0;
pub const IMAGE_VIEW_TYPE_TYPE_1D_ARRAY: i32 = 4;
pub const IMAGE_VIEW_TYPE_TYPE_2D: i32 = 1;
pub const IMAGE_VIEW_TYPE_TYPE_2D_ARRAY: i32 = 5;
pub const IMAGE_VIEW_TYPE_TYPE_3D: i32 = 2;
pub const IMAGE_VIEW_TYPE_CUBE: i32 = 3;
pub const IMAGE_VIEW_TYPE_CUBE_ARRAY: i32 = 6;

// ImageCreateFlags
pub const IMAGE_CREATE_CUBE_COMPATIBLE: u32 = 16;

// ImageTiling
pub const IMAGE_TILING_LINEAR: i32 = 1;
pub const IMAGE_TILING_OPTIMAL: i32 = 0;

// ImageUsageFlags
pub const IMAGE_USAGE_TRANSFER_SRC: u32 = 1;
pub const IMAGE_USAGE_TRANSFER_DST: u32 = 2;
pub const IMAGE_USAGE_SAMPLED: u32 = 4;
pub const IMAGE_USAGE_STORAGE: u32 = 8;
pub const IMAGE_USAGE_COLOR_ATTACHMENT: u32 = 16;
pub const IMAGE_USAGE_DEPTH_STENCIL_ATTACHMENT: u32 = 32;

// ImageLayout
pub const IMAGE_LAYOUT_UNDEFINED: i32 = 0;
pub const IMAGE_LAYOUT_GENERAL: i32 = 1;
pub const IMAGE_LAYOUT_COLOR_ATTACHMENT_OPTIMAL: i32 = 2;
pub const IMAGE_LAYOUT_DEPTH_STENCIL_ATTACHMENT_OPTIMAL: i32 = 3;
pub const IMAGE_LAYOUT_DEPTH_STENCIL_READ_ONLY_OPTIMAL: i32 = 4;
pub const IMAGE_LAYOUT_TRANSFER_SRC_OPTIMAL: i32 = 6;
pub const IMAGE_LAYOUT_TRANSFER_DST_OPTIMAL: i32 = 7;
pub const IMAGE_LAYOUT_PREINITIALIZED: i32 = 8;
pub const IMAGE_LAYOUT_DEPTH_READ_ONLY_STENCIL_ATTACHMENT_OPTIMAL: i32 = 1000117000;
pub const IMAGE_LAYOUT_DEPTH_ATTACHMENT_STENCIL_READ_ONLY_OPTIMAL: i32 = 1000117001;

// SamplerAddressMode
pub const SAMPLER_ADDRESS_MODE_REPEAT: i32 = 0;
pub const SAMPLER_ADDRESS_MODE_MIRRORED_REPEAT: i32 = 1;
pub const SAMPLER_ADDRESS_MODE_CLAMP_TO_EDGE: i32 = 2;
pub const SAMPLER_ADDRESS_MODE_CLAMP_TO_BORDER: i32 = 3;

// Filter
pub const FILTER_NEAREST: i32 = 0;
pub const FILTER_LINEAR: i32 = 1;

// SamplerMipmapMode
pub const SAMPLER_MIPMAP_MODE_NEAREST: i32 = 0;
pub const SAMPLER_MIPMAP_MODE_LINEAR: i32 = 1;

// BorderColor
pub const BORDER_COLOR_FLOAT_TRANSPARENT_BLACK: i32 = 0;
pub const BORDER_COLOR_FLOAT_OPAQUE_BLACK: i32 = 2;
pub const BORDER_COLOR_FLOAT_OPAQUE_WHITE: i32 = 4;

// SamplerReductionModeEXT
pub const SAMPLER_REDUCTION_MODE_WEIGHTED_AVERAGE: i32 = 0;
pub const SAMPLER_REDUCTION_MODE_MIN: i32 = 1;
pub const SAMPLER_REDUCTION_MODE_MAX: i32 = 2;

// PipelineStageFlags
pub const PIPELINE_STAGE_COLOR_ATTACHMENT_OUTPUT: u32 = 0x400;

// ShaderStageFlags
pub const SHADER_STAGE_VERTEX: u32 = 1;
pub const SHADER_STAGE_TESSELLATION_CONTROL: u32 = 2;
pub const SHADER_STAGE_TESSELLATION_EVALUATION: u32 = 4;
pub const SHADER_STAGE_GEOMETRY: u32 = 8;
pub const SHADER_STAGE_FRAGMENT: u32 = 16;
pub const SHADER_STAGE_COMPUTE: u32 = 32;
pub const SHADER_STAGE_ALL_GRAPHICS: u32 = 0x0000001F;
pub const SHADER_STAGE_ALL: u32 = 0x7FFFFFFF;

// DescriptorType
pub const DESCRIPTOR_TYPE_SAMPLER: i32 = 0;
pub const DESCRIPTOR_TYPE_COMBINED_IMAGE_SAMPLER: i32 = 1;
pub const DESCRIPTOR_TYPE_SAMPLED_IMAGE: i32 = 2;
pub const DESCRIPTOR_TYPE_STORAGE_IMAGE: i32 = 3;
pub const DESCRIPTOR_TYPE_UNIFORM_TEXEL_BUFFER: i32 = 4;
pub const DESCRIPTOR_TYPE_STORAGE_TEXEL_BUFFER: i32 = 5;
pub const DESCRIPTOR_TYPE_UNIFORM_BUFFER: i32 = 6;
pub const DESCRIPTOR_TYPE_STORAGE_BUFFER: i32 = 7;
pub const DESCRIPTOR_TYPE_UNIFORM_BUFFER_DYNAMIC: i32 = 8;
pub const DESCRIPTOR_TYPE_STORAGE_BUFFER_DYNAMIC: i32 = 9;
pub const DESCRIPTOR_TYPE_INPUT_ATTACHMENT: i32 = 10;

// QueueFlags
pub const QUEUE_GRAPHICS: u32 = 1;
pub const QUEUE_COMPUTE: u32 = 2;
pub const QUEUE_TRANSFER: u32 = 4;

// CommandBufferLevel
pub const COMMAND_BUFFER_LEVEL_PRIMARY: i32 = 0;
pub const COMMAND_BUFFER_LEVEL_SECONDARY: i32 = 1;

// CommandBufferUsageFlags
pub const COMMAND_BUFFER_USAGE_ONE_TIME_SUBMIT: u32 = 1;
pub const COMMAND_BUFFER_USAGE_SIMULTANEOUS_USE: u32 = 4;

// CommandPoolCreateFlags
pub const COMMAND_POOL_CREATE_TRANSIENT: u32 = 1;
pub const COMMAND_POOL_CREATE_RESET_COMMAND_BUFFER: u32 = 2;

// BufferUsageFlags
pub const BUFFER_USAGE_TRANSFER_SRC: u32 = 1;
pub const BUFFER_USAGE_TRANSFER_DST: u32 = 2;
pub const BUFFER_USAGE_UNIFORM_TEXEL_BUFFER: u32 = 4;
pub const BUFFER_USAGE_STORAGE_TEXEL_BUFFER: u32 = 8;
pub const BUFFER_USAGE_UNIFORM_BUFFER: u32 = 16;
pub const BUFFER_USAGE_STORAGE_BUFFER: u32 = 32;
pub const BUFFER_USAGE_INDEX_BUFFER: u32 = 64;
pub const BUFFER_USAGE_VERTEX_BUFFER: u32 = 128;
pub const BUFFER_USAGE_INDIRECT_BUFFER: u32 = 256;

// IndexType
pub const INDEX_TYPE_UINT16: i32 = 0;
pub const INDEX_TYPE_UINT32: i32 = 1;

// AttachmentLoadOp
pub const ATTACHMENT_LOAD_OP_LOAD: i32 = 0;
pub const ATTACHMENT_LOAD_OP_CLEAR: i32 = 1;
pub const ATTACHMENT_LOAD_OP_DONT_CARE: i32 = 2;

// AttachmentStoreOp
pub const ATTACHMENT_STORE_OP_STORE: i32 = 0;
pub const ATTACHMENT_STORE_OP_DONT_CARE: i32 = 1;

// PresentModeKHR
pub const PRESENT_MODE_MAILBOX: i32 = 1;
pub const PRESENT_MODE_FIFO: i32 = 2;

// ColorComponentFlags
pub const COLOR_COMPONENT_R: u32 = 1;
pub const COLOR_COMPONENT_G: u32 = 2;
pub const COLOR_COMPONENT_B: u32 = 4;
pub const COLOR_COMPONENT_A: u32 = 8;

// PhysicalDeviceType
pub const PHYSICAL_DEVICE_TYPE_OTHER: i32 = 0;
pub const PHYSICAL_DEVICE_TYPE_INTEGRATED_GPU: i32 = 1;
pub const PHYSICAL_DEVICE_TYPE_DISCRETE_GPU: i32 = 2;
pub const PHYSICAL_DEVICE_TYPE_VIRTUAL_GPU: i32 = 3;
pub const PHYSICAL_DEVICE_TYPE_CPU: i32 = 4;

// Format
pub const FORMAT_UNDEFINED: i32 = 0;
pub const FORMAT_R4G4_UNORM_PACK8: i32 = 1;
pub const FORMAT_R4G4B4A4_UNORM_PACK16: i32 = 2;
pub const FORMAT_R5G6B5_UNORM_PACK16: i32 = 4;
pub const FORMAT_R5G5B5A1_UNORM_PACK16: i32 = 6;
pub const FORMAT_R8_UNORM: i32 = 9;
pub const FORMAT_R8_SNORM: i32 = 10;
pub const FORMAT_R8_SRGB: i32 = 15;
pub const FORMAT_R8_UINT: i32 = 13;
pub const FORMAT_R8_SINT: i32 = 14;
pub const FORMAT_R8G8_UNORM: i32 = 16;
pub const FORMAT_R8G8_SNORM: i32 = 17;
pub const FORMAT_R8G8_SRGB: i32 = 22;
pub const FORMAT_R8G8_UINT: i32 = 20;
pub const FORMAT_R8G8_SINT: i32 = 21;
pub const FORMAT_R8G8B8_UNORM: i32 = 23;
pub const FORMAT_R8G8B8_SRGB: i32 = 29;
pub const FORMAT_R8G8B8A8_UNORM: i32 = 37;
pub const FORMAT_R8G8B8A8_SNORM: i32 = 38;
pub const FORMAT_R8G8B8A8_SRGB: i32 = 43;
pub const FORMAT_R8G8B8A8_UINT: i32 = 41;
pub const FORMAT_R8G8B8A8_SINT: i32 = 42;
pub const FORMAT_B8G8R8A8_UNORM: i32 = 44;
pub const FORMAT_B8G8R8A8_SRGB: i32 = 50;
pub const FORMAT_B10G11R11_UFLOAT_PACK32: i32 = 122;
pub const FORMAT_A2R10G10B10_UNORM_PACK32: i32 = 58;
pub const FORMAT_A2R10G10B10_UINT_PACK32: i32 = 62;
pub const FORMAT_E5B9G9R9_UFLOAT_PACK32: i32 = 123;
pub const FORMAT_R16_SFLOAT: i32 = 76;
pub const FORMAT_R16_UNORM: i32 = 70;
pub const FORMAT_R16_SNORM: i32 = 71;
pub const FORMAT_R16_UINT: i32 = 74;
pub const FORMAT_R16_SINT: i32 = 75;
pub const FORMAT_R16G16_SFLOAT: i32 = 83;
pub const FORMAT_R16G16_UNORM: i32 = 77;
pub const FORMAT_R16G16_SNORM: i32 = 78;
pub const FORMAT_R16G16_UINT: i32 = 81;
pub const FORMAT_R16G16_SINT: i32 = 82;
pub const FORMAT_R16G16B16A16_SFLOAT: i32 = 97;
pub const FORMAT_R16G16B16A16_UNORM: i32 = 91;
pub const FORMAT_R16G16B16A16_SNORM: i32 = 92;
pub const FORMAT_R16G16B16A16_UINT: i32 = 95;
pub const FORMAT_R16G16B16A16_SINT: i32 = 96;
pub const FORMAT_R32_SFLOAT: i32 = 100;
pub const FORMAT_R32_UINT: i32 = 98;
pub const FORMAT_R32_SINT: i32 = 99;
pub const FORMAT_R32G32_SFLOAT: i32 = 103;
pub const FORMAT_R32G32_UINT: i32 = 101;
pub const FORMAT_R32G32_SINT: i32 = 102;
pub const FORMAT_R32G32B32_SFLOAT: i32 = 106;
pub const FORMAT_R32G32B32_UINT: i32 = 104;
pub const FORMAT_R32G32B32_SINT: i32 = 105;
pub const FORMAT_R32G32B32A32_SFLOAT: i32 = 109;
pub const FORMAT_R32G32B32A32_UINT: i32 = 107;
pub const FORMAT_R32G32B32A32_SINT: i32 = 108;
pub const FORMAT_BC1_RGB_UNORM_BLOCK: i32 = 131;
pub const FORMAT_BC1_RGB_SRGB_BLOCK: i32 = 132;
pub const FORMAT_BC1_RGBA_UNORM_BLOCK: i32 = 133;
pub const FORMAT_BC1_RGBA_SRGB_BLOCK: i32 = 134;
pub const FORMAT_BC2_UNORM_BLOCK: i32 = 135;
pub const FORMAT_BC2_SRGB_BLOCK: i32 = 136;
pub const FORMAT_BC3_UNORM_BLOCK: i32 = 137;
pub const FORMAT_BC3_SRGB_BLOCK: i32 = 138;
pub const FORMAT_BC4_UNORM_BLOCK: i32 = 139;
pub const FORMAT_BC4_SNORM_BLOCK: i32 = 140;
pub const FORMAT_BC5_UNORM_BLOCK: i32 = 141;
pub const FORMAT_BC5_SNORM_BLOCK: i32 = 142;
pub const FORMAT_BC6H_UFLOAT_BLOCK: i32 = 143;
pub const FORMAT_BC6H_SFLOAT_BLOCK: i32 = 144;
pub const FORMAT_BC7_UNORM_BLOCK: i32 = 145;
pub const FORMAT_BC7_SRGB_BLOCK: i32 = 146;
pub const FORMAT_D24_UNORM_S8_UINT: i32 = 129;
pub const FORMAT_D32_SFLOAT_S8_UINT: i32 = 130;
pub const FORMAT_D16_UNORM: i32 = 124;
pub const FORMAT_D32_SFLOAT: i32 = 126;
pub const FORMAT_ASTC_4X4_UNORM_BLOCK: i32 = 157;
pub const FORMAT_ASTC_4X4_SRGB_BLOCK: i32 = 158;
pub const FORMAT_ASTC_5X4_UNORM_BLOCK: i32 = 159;
pub const FORMAT_ASTC_5X4_SRGB_BLOCK: i32 = 160;
pub const FORMAT_ASTC_5X5_UNORM_BLOCK: i32 = 161;
pub const FORMAT_ASTC_5X5_SRGB_BLOCK: i32 = 162;
pub const FORMAT_ASTC_6X5_UNORM_BLOCK: i32 = 163;
pub const FORMAT_ASTC_6X5_SRGB_BLOCK: i32 = 164;
pub const FORMAT_ASTC_6X6_UNORM_BLOCK: i32 = 165;
pub const FORMAT_ASTC_6X6_SRGB_BLOCK: i32 = 166;
pub const FORMAT_ASTC_8X5_UNORM_BLOCK: i32 = 167;
pub const FORMAT_ASTC_8X5_SRGB_BLOCK: i32 = 168;
pub const FORMAT_ASTC_8X6_UNORM_BLOCK: i32 = 169;
pub const FORMAT_ASTC_8X6_SRGB_BLOCK: i32 = 170;
pub const FORMAT_ASTC_8X8_UNORM_BLOCK: i32 = 171;
pub const FORMAT_ASTC_8X8_SRGB_BLOCK: i32 = 172;
pub const FORMAT_ASTC_10X5_UNORM_BLOCK: i32 = 173;
pub const FORMAT_ASTC_10X5_SRGB_BLOCK: i32 = 174;
pub const FORMAT_ASTC_10X6_UNORM_BLOCK: i32 = 175;
pub const FORMAT_ASTC_10X6_SRGB_BLOCK: i32 = 176;
pub const FORMAT_ASTC_10X8_UNORM_BLOCK: i32 = 177;
pub const FORMAT_ASTC_10X8_SRGB_BLOCK: i32 = 178;
pub const FORMAT_ASTC_10X10_UNORM_BLOCK: i32 = 179;
pub const FORMAT_ASTC_10X10_SRGB_BLOCK: i32 = 180;
pub const FORMAT_ASTC_12X10_UNORM_BLOCK: i32 = 181;
pub const FORMAT_ASTC_12X10_SRGB_BLOCK: i32 = 182;
pub const FORMAT_ASTC_12X12_UNORM_BLOCK: i32 = 183;
pub const FORMAT_ASTC_12X12_SRGB_BLOCK: i32 = 184;
pub const FORMAT_B8G8R8_UNORM: i32 = 30;

pub const TRUE: u32 = 1;
pub const FALSE: u32 = 0;
pub const ATTACHMENT_UNUSED: u32 = 0xffff_ffff;

// Sample counts, sharing, surface transforms, composite alpha
pub const SAMPLE_COUNT_1: u32 = 1;
pub const SHARING_MODE_EXCLUSIVE: i32 = 0;
pub const SURFACE_TRANSFORM_IDENTITY: u32 = 1;
pub const COMPOSITE_ALPHA_OPAQUE: u32 = 1;

// Front faces and vertex input rates
pub const FRONT_FACE_COUNTER_CLOCKWISE: i32 = 0;
pub const VERTEX_INPUT_RATE_VERTEX: i32 = 0;

} // verus!
