use render_hal_vk::capability::Capability;
use render_hal_vk::command::FamilyId;
use render_hal_vk::command::QueueId;
use render_hal_vk::command_buffer::Pool;
use render_hal_vk::command_buffer::Primary;
use render_hal_vk::command_buffer::ResetBuffer;
use render_hal_vk::errors::OomError;
use render_hal_vk::format::bool_to_vk;
use render_hal_vk::format::convert_format;
use render_hal_vk::format::format_has_depth;
use render_hal_vk::format::format_has_stencil;
use render_hal_vk::format::get_blend_factor;
use render_hal_vk::format::get_compare_op;
use render_hal_vk::format::get_cull_mode;
use render_hal_vk::format::get_image_aspect_flags;
use render_hal_vk::format::get_polygon_mode;
use render_hal_vk::format::get_primitive_topology;
use render_hal_vk::format::get_stencil_op;
use render_hal_vk::format::get_stencil_op_state;
use render_hal_vk::format::RenderBlendMode;
use render_hal_vk::format::RenderCompareFunc;
use render_hal_vk::format::RenderCullMode;
use render_hal_vk::format::RenderFillMode;
use render_hal_vk::format::RenderFormat;
use render_hal_vk::format::RenderPrimitiveType;
use render_hal_vk::format::RenderStencilOp;
use render_hal_vk::format::RenderStencilSide;
use render_hal_vk::image::convert_texture_type_to_view_type;
use render_hal_vk::image::get_image_create_info;
use render_hal_vk::image::RenderBindFlags;
use render_hal_vk::image::RenderTextureDesc;
use render_hal_vk::image::RenderTextureType;
use render_hal_vk::queue::get_fence_status;
use render_hal_vk::queue::wait_for_all_fences;
use render_hal_vk::queue::Queue;
use render_hal_vk::queue::assemble_submissions;
use render_hal_vk::queue::SubmissionInput;
use render_hal_vk::queue::SubmitBuffer;
use render_hal_vk::queue::SubmitRange;
use render_hal_vk::queue::UnarmedFence;
use render_hal_vk::queue::VulkanObjects;
use render_hal_vk::sampler::get_addressing_mode;
use render_hal_vk::sampler::is_comparison_filter;
use render_hal_vk::sampler::make_vulkan_sampler;
use render_hal_vk::sampler::RenderBorderColor;
use render_hal_vk::sampler::RenderSamplerAddressMode;
use render_hal_vk::sampler::RenderSamplerFilter;
use render_hal_vk::sampler::RenderSamplerState;
use render_hal_vk::states::barrier_layout;
use render_hal_vk::states::get_buffer_access_type;
use render_hal_vk::states::get_image_access_type;
use render_hal_vk::states::get_image_layout;
use render_hal_vk::states::get_shader_stage;
use render_hal_vk::states::AccessType;
use render_hal_vk::states::BarrierLayout;
use render_hal_vk::states::RenderResourceStates;
use render_hal_vk::states::RenderShaderType;
use render_hal_vk::vulkan;
use std::sync::Arc;

fn sampler(filter: RenderSamplerFilter, min_mip: u32, max_mip: u32, max_aniso: u32) -> RenderSamplerState {
    RenderSamplerState {
        address_u: RenderSamplerAddressMode::Wrap,
        address_v: RenderSamplerAddressMode::MirrorOnce,
        address_w: RenderSamplerAddressMode::Border,
        filter,
        min_mip,
        max_mip,
        max_aniso,
        comparison: RenderCompareFunc::LessEqual,
        border_color: RenderBorderColor::WhiteA1,
    }
}

#[test]
fn sampler_clamps_lods_and_anisotropy() {
    let info = make_vulkan_sampler(&sampler(RenderSamplerFilter::ComparisonAnisotropic, 3, 40, 0));
    assert_eq!((info.min_lod, info.max_lod), (3, 16));
    assert_eq!(info.anisotropy_enable, vulkan::TRUE);
    assert_eq!(info.max_anisotropy, 1);
    assert_eq!(info.compare_enable, vulkan::TRUE);
    assert_eq!(info.compare_op, vulkan::COMPARE_OP_LESS_OR_EQUAL);
    assert_eq!(info.address_mode_v, vulkan::SAMPLER_ADDRESS_MODE_MIRRORED_REPEAT);
    assert_eq!(info.border_color, vulkan::BORDER_COLOR_FLOAT_OPAQUE_WHITE);
    let aniso = make_vulkan_sampler(&sampler(RenderSamplerFilter::Anisotropic, 0, 4, 32));
    assert_eq!(aniso.max_anisotropy, 16);
    assert_eq!(aniso.compare_enable, vulkan::FALSE);
    let point = make_vulkan_sampler(&sampler(RenderSamplerFilter::MinPointMagLinearMipPoint, 0, 0, 8));
    assert_eq!((point.min_filter, point.mag_filter, point.mipmap_mode), (vulkan::FILTER_NEAREST, vulkan::FILTER_LINEAR, vulkan::SAMPLER_MIPMAP_MODE_NEAREST));
    assert_eq!((point.anisotropy_enable, point.max_anisotropy), (vulkan::FALSE, 1));
    assert_eq!(get_addressing_mode(RenderSamplerAddressMode::Clamp), vulkan::SAMPLER_ADDRESS_MODE_CLAMP_TO_EDGE);
    assert!(is_comparison_filter(RenderSamplerFilter::ComparisonMinMagMipPoint));
    assert!(!is_comparison_filter(RenderSamplerFilter::MinimumMinMagMipPoint));
}

#[test]
fn format_tables() {
    assert_eq!(bool_to_vk(true), vulkan::TRUE);
    assert_eq!(convert_format(RenderFormat::Unknown, false), vulkan::FORMAT_UNDEFINED);
    assert_eq!(convert_format(RenderFormat::D32Float, false), vulkan::FORMAT_D32_SFLOAT);
    assert!(format_has_depth(RenderFormat::D24UnormS8Uint));
    assert!(format_has_stencil(RenderFormat::D24UnormS8Uint));
    assert!(!format_has_stencil(RenderFormat::D32Float));
    assert_eq!(get_image_aspect_flags(RenderFormat::D24UnormS8Uint, false), vulkan::IMAGE_ASPECT_DEPTH | vulkan::IMAGE_ASPECT_STENCIL);
    assert_eq!(get_image_aspect_flags(RenderFormat::D24UnormS8Uint, true), vulkan::IMAGE_ASPECT_DEPTH);
    assert_eq!(get_image_aspect_flags(RenderFormat::R8g8b8a8Unorm, false), vulkan::IMAGE_ASPECT_COLOR);
    assert_eq!(get_polygon_mode(RenderFillMode::WireFrame), vulkan::POLYGON_MODE_LINE);
    assert_eq!(get_cull_mode(RenderCullMode::CullNone), vulkan::CULL_MODE_NONE);
    assert_eq!(get_cull_mode(RenderCullMode::Back), vulkan::CULL_MODE_BACK);
    assert_eq!(get_blend_factor(RenderBlendMode::One), vulkan::BLEND_FACTOR_ONE);
    assert_eq!(get_compare_op(RenderCompareFunc::Always), vulkan::COMPARE_OP_ALWAYS);
    assert_eq!(get_stencil_op(RenderStencilOp::IncrementWrap), vulkan::STENCIL_OP_INCREMENT_AND_WRAP);
    assert_eq!(get_primitive_topology(RenderPrimitiveType::TrianglePatch), vulkan::PRIMITIVE_TOPOLOGY_PATCH_LIST);
    assert_eq!(get_primitive_topology(RenderPrimitiveType::LineStrip), vulkan::PRIMITIVE_TOPOLOGY_LINE_STRIP);
    let side = RenderStencilSide {
        fail_op: RenderStencilOp::Keep,
        depth_fail_op: RenderStencilOp::Zero,
        pass_op: RenderStencilOp::Replace,
        func: RenderCompareFunc::Equal,
    };
    let state = get_stencil_op_state(&side, 0xF0, 0x0F);
    assert_eq!((state.fail_op, state.depth_fail_op, state.pass_op), (vulkan::STENCIL_OP_KEEP, vulkan::STENCIL_OP_ZERO, vulkan::STENCIL_OP_REPLACE));
    assert_eq!((state.compare_mask, state.write_mask, state.reference), (0xF0, 0x0F, 0));
}

#[test]
fn image_creation_parameters() {
    let desc = RenderTextureDesc {
        texture_type: RenderTextureType::CubeArray,
        bind_flags: RenderBindFlags { bits: RenderBindFlags::SHADER_RESOURCE | RenderBindFlags::RENDER_TARGET },
        format: RenderFormat::R8g8b8a8Unorm,
        width: 32,
        height: 32,
        depth: 1,
        levels: 6,
        elements: 2,
    };
    let info = get_image_create_info(&desc, false);
    assert_eq!(info.flags, vulkan::IMAGE_CREATE_CUBE_COMPATIBLE);
    assert_eq!(info.image_type, vulkan::IMAGE_TYPE_TYPE_2D);
    assert_eq!((info.mip_levels, info.array_layers), (6, 12));
    assert_eq!(info.tiling, vulkan::IMAGE_TILING_OPTIMAL);
    assert_eq!(
        info.usage,
        vulkan::IMAGE_USAGE_TRANSFER_DST | vulkan::IMAGE_USAGE_SAMPLED | vulkan::IMAGE_USAGE_COLOR_ATTACHMENT | vulkan::IMAGE_USAGE_TRANSFER_SRC
    );
    assert_eq!(info.initial_layout, vulkan::IMAGE_LAYOUT_UNDEFINED);
    let volume = RenderTextureDesc { texture_type: RenderTextureType::Tex3d, depth: 4, ..desc };
    let info = get_image_create_info(&volume, true);
    assert_eq!((info.extent.depth, info.array_layers, info.flags), (4, 1, 0));
    assert_eq!(info.initial_layout, vulkan::IMAGE_LAYOUT_PREINITIALIZED);
    assert_eq!(convert_texture_type_to_view_type(RenderTextureType::Cube), vulkan::IMAGE_VIEW_TYPE_CUBE);
}

#[test]
fn state_tables() {
    let s = |bits: u32| RenderResourceStates { bits };
    assert_eq!(get_image_layout(s(RenderResourceStates::COMMON)), vulkan::IMAGE_LAYOUT_GENERAL);
    assert_eq!(get_image_layout(s(RenderResourceStates::RENDER_TARGET)), vulkan::IMAGE_LAYOUT_COLOR_ATTACHMENT_OPTIMAL);
    assert_eq!(get_image_layout(s(RenderResourceStates::DEPTH_READ)), vulkan::IMAGE_LAYOUT_DEPTH_STENCIL_READ_ONLY_OPTIMAL);
    assert_eq!(get_image_layout(s(RenderResourceStates::COPY_SOURCE)), vulkan::IMAGE_LAYOUT_TRANSFER_SRC_OPTIMAL);
    assert_eq!(get_buffer_access_type(s(RenderResourceStates::INDEX_BUFFER)), AccessType::IndexBuffer);
    assert_eq!(barrier_layout(AccessType::General), BarrierLayout::General);
    assert_eq!(barrier_layout(AccessType::TransferRead), BarrierLayout::Optimal);
    assert_eq!(get_shader_stage(RenderShaderType::Hull), vulkan::SHADER_STAGE_TESSELLATION_CONTROL);
    assert!(s(RenderResourceStates::RENDER_TARGET | RenderResourceStates::COPY_DEST).contains(RenderResourceStates::COPY_DEST));
}

#[test]
fn capabilities_and_ids() {
    assert!(Capability::General.supports(Capability::Graphics));
    assert!(Capability::Compute.supports(Capability::Transfer));
    assert!(!Capability::Compute.supports(Capability::Graphics));
    assert_eq!(Capability::from_queue_flags(vulkan::QUEUE_GRAPHICS), Capability::Graphics);
    assert_eq!(Capability::from_queue_flags(vulkan::QUEUE_TRANSFER), Capability::Transfer);
    let family = FamilyId::new(2, Capability::General);
    assert_eq!(family.capability(), Capability::General);
    assert_eq!(family.graphics().index, 2);
    let queue = QueueId::new(1, family);
    assert_eq!(queue.capability(), Capability::General);
    assert_eq!(queue.compute().family.index, 2);
    assert!(FamilyId::new(2, Capability::Transfer) == family);
}

#[test]
fn pools_allocate_initial_buffers() {
    let pool: Pool<Capability, ResetBuffer> = Pool::from_raw(9, FamilyId::new(0, Capability::Graphics));
    let buffers = pool.allocate::<Primary>(vulkan::RESULT_SUCCESS, vec![1, 2]).ok().unwrap();
    assert_eq!(buffers.iter().map(|b| b.raw).collect::<Vec<u64>>(), vec![1, 2]);
    assert!(buffers.iter().all(|b| b.family.index == 0));
    let failed = pool.allocate::<Primary>(vulkan::RESULT_ERROR_OUT_OF_DEVICE_MEMORY, vec![]);
    assert!(matches!(failed, Err(OomError::OutOfDeviceMemory)));
    assert_eq!(pool.capability(), Capability::Graphics);
    let graphics = pool.graphics();
    assert_eq!(graphics.raw, 9);
}

#[test]
fn queue_releases_completed_epochs() {
    let id = QueueId::new(0, FamilyId::new(0, Capability::General));
    let mut queue = Queue::from_raw(5, id);
    queue.push_track(Arc::new(VulkanObjects { objects: vec![] }));
    let armed = queue.arm_fence(Some(UnarmedFence { raw: 40 })).unwrap();
    assert_eq!(armed.epoch, 0);
    let armed = queue.finish_submit(vulkan::RESULT_SUCCESS, Some(armed)).ok().unwrap().unwrap();
    queue.push_track(Arc::new(VulkanObjects { objects: vec![] }));
    assert_eq!(queue.next, 1);
    assert_eq!(queue.pending.iter().map(|b| b.epoch).collect::<Vec<u64>>(), vec![0, 1]);
    let not_ready = get_fence_status(vulkan::RESULT_NOT_READY, armed).ok().unwrap();
    let armed = not_ready.err().unwrap();
    let ready = get_fence_status(vulkan::RESULT_SUCCESS, armed).ok().unwrap().ok().unwrap();
    let unarmed = queue.complete(ready);
    assert_eq!(unarmed.raw, 40);
    assert_eq!(queue.pending.iter().map(|b| b.epoch).collect::<Vec<u64>>(), vec![1]);
    assert_eq!(queue.free.len(), 1);
    assert!(queue.free[0].objects.is_none());
    assert_eq!(queue.free[0].epoch, 0);
    assert!(queue.finish_submit(vulkan::RESULT_ERROR_DEVICE_LOST, None).is_err());
    let timeout = wait_for_all_fences::<Capability>(vulkan::RESULT_TIMEOUT, vec![]);
    assert!(matches!(timeout, Ok(Err(ref v)) if v.is_empty()));
}

#[test]
fn image_layouts_agree_with_access_types() {
    let cases = [
        (RenderResourceStates::RENDER_TARGET, vulkan::IMAGE_LAYOUT_COLOR_ATTACHMENT_OPTIMAL, AccessType::ColorAttachmentWrite),
        (RenderResourceStates::DEPTH_WRITE, vulkan::IMAGE_LAYOUT_DEPTH_STENCIL_ATTACHMENT_OPTIMAL, AccessType::DepthStencilAttachmentWrite),
        (RenderResourceStates::DEPTH_READ, vulkan::IMAGE_LAYOUT_DEPTH_STENCIL_READ_ONLY_OPTIMAL, AccessType::DepthStencilAttachmentRead),
        (RenderResourceStates::COPY_DEST, vulkan::IMAGE_LAYOUT_TRANSFER_DST_OPTIMAL, AccessType::TransferWrite),
        (RenderResourceStates::COPY_SOURCE, vulkan::IMAGE_LAYOUT_TRANSFER_SRC_OPTIMAL, AccessType::TransferRead),
        (RenderResourceStates::UNORDERED_ACCESS, vulkan::IMAGE_LAYOUT_GENERAL, AccessType::General),
        (RenderResourceStates::PIXEL_SHADER_RESOURCE, vulkan::IMAGE_LAYOUT_GENERAL, AccessType::AnyShaderReadOther),
    ];
    for (bits, layout, access) in cases.iter() {
        let states = RenderResourceStates { bits: *bits };
        assert_eq!(get_image_layout(states), *layout);
        assert_eq!(get_image_access_type(states), *access);
    }
}

#[test]
fn distinct_formats_convert_to_distinct_vulkan_formats() {
    let formats = [
        RenderFormat::R8Unorm,
        RenderFormat::R8Snorm,
        RenderFormat::R8Srgb,
        RenderFormat::R32Float,
        RenderFormat::D32Float,
        RenderFormat::D32FloatS8Uint,
        RenderFormat::B8g8r8a8Unorm,
        RenderFormat::R8g8b8a8Unorm,
    ];
    for (i, a) in formats.iter().enumerate() {
        for (j, b) in formats.iter().enumerate() {
            assert_eq!(convert_format(*a, false) == convert_format(*b, false), i == j);
        }
    }
}

#[test]
fn submissions_share_arrays_in_order() {
    let subs = vec![
        SubmissionInput {
            wait: vec![(1, 0x400), (2, 0x1)],
            submits: vec![SubmitBuffer { raw: 10, family: 0 }],
            signal: vec![],
        },
        SubmissionInput {
            wait: vec![],
            submits: vec![SubmitBuffer { raw: 11, family: 0 }, SubmitBuffer { raw: 12, family: 0 }],
            signal: vec![7],
        },
    ];
    let a = assemble_submissions(0, &subs);
    assert_eq!(a.waits, vec![1, 2]);
    assert_eq!(a.stages, vec![0x400, 0x1]);
    assert_eq!(a.buffers, vec![10, 11, 12]);
    assert_eq!(a.signals, vec![7]);
    assert_eq!(
        a.ranges,
        vec![
            SubmitRange { wait_start: 0, wait_count: 2, buffer_start: 0, buffer_count: 1, signal_start: 0, signal_count: 0 },
            SubmitRange { wait_start: 2, wait_count: 0, buffer_start: 1, buffer_count: 2, signal_start: 0, signal_count: 1 },
        ]
    );
}
