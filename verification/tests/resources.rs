use render_hal_vk::format::RenderFormat;
use render_hal_vk::image::RenderBindFlags;
use render_hal_vk::image::RenderTextureDesc;
use render_hal_vk::image::RenderTextureType;
use render_hal_vk::image::RenderViewDimension;
use render_hal_vk::resources::buffer_upload_copy;
use render_hal_vk::resources::buffer_usage;
use render_hal_vk::resources::buffer_view_needed;
use render_hal_vk::resources::destroy_plan;
use render_hal_vk::resources::draw_binding_plan;
use render_hal_vk::resources::index_type;
use render_hal_vk::resources::initial_clear;
use render_hal_vk::resources::srv_view_info;
use render_hal_vk::resources::texture_default_state;
use render_hal_vk::resources::texture_max_mip_count;
use render_hal_vk::resources::texture_range;
use render_hal_vk::resources::texture_upload_regions;
use render_hal_vk::resources::texture_write_barriers;
use render_hal_vk::resources::uav_view_info;
use render_hal_vk::resources::BufferBinding;
use render_hal_vk::resources::BufferCopy;
use render_hal_vk::resources::DestroyAction;
use render_hal_vk::resources::InitialClear;
use render_hal_vk::resources::ResourceObjects;
use render_hal_vk::resources::TextureSrv;
use render_hal_vk::resources::TextureUav;
use render_hal_vk::resources::ViewedTexture;
use render_hal_vk::resources::texture_record;
use render_hal_vk::resources::buffer_record;
use render_hal_vk::resources::RenderBufferDesc;
use render_hal_vk::resources::ViewSource;
use render_hal_vk::resources::ViewCreation;
use render_hal_vk::resources::view_creations;
use render_hal_vk::resources::shader_views_record;
use render_hal_vk::states::AccessType;
use render_hal_vk::states::RenderResourceStates;
use render_hal_vk::vulkan;

fn flags(bits: u32) -> RenderBindFlags {
    RenderBindFlags { bits }
}

fn desc(texture_type: RenderTextureType, width: u32, height: u32, levels: u16, elements: u16) -> RenderTextureDesc {
    RenderTextureDesc {
        texture_type,
        bind_flags: flags(RenderBindFlags::SHADER_RESOURCE),
        format: RenderFormat::R8g8b8a8Unorm,
        width,
        height,
        depth: 1,
        levels,
        elements,
    }
}

#[test]
fn default_states_of_new_textures() {
    let shader = RenderResourceStates::NON_PIXEL_SHADER_RESOURCE | RenderResourceStates::PIXEL_SHADER_RESOURCE;
    assert_eq!(texture_default_state(flags(RenderBindFlags::SHADER_RESOURCE | RenderBindFlags::RENDER_TARGET), true).bits, shader);
    assert_eq!(texture_default_state(flags(RenderBindFlags::CROSS_DEVICE | RenderBindFlags::SHADER_RESOURCE), false).bits, RenderResourceStates::COMMON);
    assert_eq!(texture_default_state(flags(RenderBindFlags::RENDER_TARGET), false).bits, RenderResourceStates::RENDER_TARGET);
    assert_eq!(texture_default_state(flags(RenderBindFlags::DEPTH_STENCIL), false).bits, RenderResourceStates::DEPTH_WRITE);
    assert_eq!(texture_default_state(flags(RenderBindFlags::INDEX_BUFFER), false).bits, RenderResourceStates::INDEX_BUFFER);
    assert_eq!(texture_default_state(flags(RenderBindFlags::NONE), false).bits, shader);
}

#[test]
fn whole_texture_range_and_first_write() {
    let range = texture_range(&desc(RenderTextureType::Cube, 64, 64, 4, 2));
    assert_eq!((range.level_count, range.layer_count, range.aspect_mask), (4, 12, vulkan::IMAGE_ASPECT_COLOR));
    let range2 = texture_range(&desc(RenderTextureType::Tex2dArray, 64, 64, 1, 3));
    assert_eq!(range2.layer_count, 3);
    let (before, after) = texture_write_barriers(9, range);
    assert!(before.discard_contents);
    assert_eq!(before.next_access, AccessType::TransferWrite);
    assert_eq!(after.previous_access, AccessType::TransferWrite);
    assert_eq!(after.next_access, AccessType::General);
    assert_eq!(after.range, range);
    assert_eq!(initial_clear(RenderFormat::D32Float), InitialClear::DepthStencil);
    assert_eq!(initial_clear(RenderFormat::R8g8b8a8Unorm), InitialClear::Color);
}

#[test]
fn mip_counts() {
    assert_eq!(texture_max_mip_count(1, 1, 1), 1);
    assert_eq!(texture_max_mip_count(256, 16, 1), 9);
    assert_eq!(texture_max_mip_count(255, 1, 1), 8);
    assert_eq!(texture_max_mip_count(0, 0, 0), 1);
    assert_eq!(texture_max_mip_count(u32::MAX, 1, 1), 32);
}

#[test]
fn upload_regions_cover_every_subresource() {
    let regions = texture_upload_regions(&desc(RenderTextureType::Tex2dArray, 8, 4, 3, 2), 32, 0);
    assert_eq!(regions.len(), 6);
    assert_eq!((regions[0].mip_level, regions[0].array_layer, regions[0].width, regions[0].height), (0, 0, 8, 4));
    assert_eq!((regions[2].mip_level, regions[2].width, regions[2].height), (2, 2, 1));
    assert_eq!((regions[3].mip_level, regions[3].array_layer), (0, 1));
    assert_eq!(regions[0].slice_pitch, 128);
    assert_eq!(regions[1].slice_pitch, 64);
    let explicit = texture_upload_regions(&desc(RenderTextureType::Tex2d, 8, 4, 1, 1), 32, 500);
    assert_eq!(explicit[0].slice_pitch, 500);
}

#[test]
fn buffer_usage_and_copies() {
    let base = vulkan::BUFFER_USAGE_TRANSFER_DST | vulkan::BUFFER_USAGE_TRANSFER_SRC;
    assert_eq!(buffer_usage(flags(RenderBindFlags::NONE)), base);
    assert_eq!(
        buffer_usage(flags(RenderBindFlags::INDEX_BUFFER | RenderBindFlags::VERTEX_BUFFER)),
        base | vulkan::BUFFER_USAGE_INDEX_BUFFER | vulkan::BUFFER_USAGE_VERTEX_BUFFER | vulkan::BUFFER_USAGE_UNIFORM_BUFFER
    );
    assert_eq!(buffer_usage(flags(RenderBindFlags::STREAM_OUTPUT)), base | vulkan::BUFFER_USAGE_STORAGE_BUFFER);
    assert_eq!(buffer_upload_copy(512, 100), BufferCopy { src_offset: 512, dst_offset: 0, size: 100 });
    assert_eq!(index_type(2), vulkan::INDEX_TYPE_UINT16);
    assert_eq!(index_type(4), vulkan::INDEX_TYPE_UINT32);
}

#[test]
fn draw_bindings_plan() {
    let vb = BufferBinding {
        resource: 5,
        offset: 16,
        stride: 32,
        supported_states: RenderResourceStates { bits: RenderResourceStates::VERTEX_AND_CONSTANT_BUFFER },
    };
    let ib = BufferBinding {
        resource: 6,
        offset: 4,
        stride: 2,
        supported_states: RenderResourceStates { bits: RenderResourceStates::INDEX_BUFFER },
    };
    let plan = draw_binding_plan(Some(ib), &vec![Some(vb), None]);
    assert_eq!(plan.index_buffer, Some(6));
    assert_eq!(plan.index_buffer_offset, 4);
    assert_eq!(plan.index_type, vulkan::INDEX_TYPE_UINT16);
    assert_eq!(plan.vertex_buffers, vec![Some(5), None]);
    assert_eq!(plan.vertex_buffer_offsets, vec![16, 0]);
    let plain = draw_binding_plan(None, &vec![]);
    assert_eq!(plain.index_buffer, None);
    assert_eq!(plain.index_type, vulkan::INDEX_TYPE_UINT32);
}

#[test]
fn shader_view_infos() {
    let cube = ViewedTexture { image: 1, format: RenderFormat::R8g8b8a8Unorm, texture_type: RenderTextureType::CubeArray };
    let srv = TextureSrv {
        format: RenderFormat::R8g8b8a8Unorm,
        dimension: RenderViewDimension::CubeArray,
        most_detailed_mip: 1,
        mip_levels: 0,
        first_array_slice: 2,
        array_size: 0,
    };
    let info = srv_view_info(&cube, &srv);
    assert_eq!((info.base_mip_level, info.level_count, info.base_array_layer, info.layer_count), (1, 1, 12, 6));
    assert_eq!(info.view_type, vulkan::IMAGE_VIEW_TYPE_CUBE_ARRAY);

    let depth = ViewedTexture { image: 2, format: RenderFormat::D32Float, texture_type: RenderTextureType::Tex2d };
    let srv = TextureSrv {
        format: RenderFormat::R32Float,
        dimension: RenderViewDimension::Tex2d,
        most_detailed_mip: 0,
        mip_levels: 3,
        first_array_slice: 0,
        array_size: 1,
    };
    let info = srv_view_info(&depth, &srv);
    assert_eq!(info.format, vulkan::FORMAT_D32_SFLOAT);
    assert_eq!(info.aspect_mask, vulkan::IMAGE_ASPECT_DEPTH);
    assert_eq!(info.level_count, 3);

    let flat = ViewedTexture { image: 3, format: RenderFormat::R8g8b8a8Unorm, texture_type: RenderTextureType::Tex2dArray };
    let uav = TextureUav {
        format: RenderFormat::R8g8b8a8Unorm,
        dimension: RenderViewDimension::Tex2dArray,
        mip_slice: 2,
        first_array_slice: 0,
        array_size: 3,
    };
    let info = uav_view_info(&flat, &uav);
    assert_eq!((info.base_mip_level, info.level_count, info.base_array_layer, info.layer_count), (2, 1, 3, 1));
    assert!(buffer_view_needed(RenderFormat::R32Float));
    assert!(!buffer_view_needed(RenderFormat::Unknown));
}

#[test]
fn destroy_plans_release_in_order() {
    assert_eq!(
        destroy_plan(&ResourceObjects::SwapChain { acquire_image_semaphore: 1, render_done_semaphore: 2, swap_chain: 3, surface: 4 }),
        vec![DestroyAction::Semaphore(1), DestroyAction::Semaphore(2), DestroyAction::SwapChain(3), DestroyAction::Surface(4)]
    );
    assert_eq!(destroy_plan(&ResourceObjects::Texture { image: 5, allocated: false }), vec![DestroyAction::Image(5)]);
    assert_eq!(destroy_plan(&ResourceObjects::Texture { image: 5, allocated: true }), vec![DestroyAction::AllocatedImage(5)]);
    assert_eq!(
        destroy_plan(&ResourceObjects::ShaderViews { descriptor_pools: vec![7], srvs: vec![(8, 0), (9, 10)], uavs: vec![(0, 11)] }),
        vec![
            DestroyAction::DescriptorPool(7),
            DestroyAction::ImageView(8),
            DestroyAction::ImageView(9),
            DestroyAction::BufferView(10),
            DestroyAction::BufferView(11),
        ]
    );
    assert_eq!(
        destroy_plan(&ResourceObjects::GraphicsPipelineState { pipeline: 1, static_samplers: vec![2], set_layouts: vec![3, 4], pipeline_layout: 5 }),
        vec![
            DestroyAction::Pipeline(1),
            DestroyAction::Sampler(2),
            DestroyAction::DescriptorSetLayout(3),
            DestroyAction::DescriptorSetLayout(4),
            DestroyAction::PipelineLayout(5),
        ]
    );
    assert!(destroy_plan(&ResourceObjects::DrawBindingSet).is_empty());
    assert_eq!(
        destroy_plan(&ResourceObjects::RenderPass { frame_buffer: 1, render_pass: 2 }),
        vec![DestroyAction::Framebuffer(1), DestroyAction::RenderPass(2)]
    );
}

#[test]
fn texture_and_buffer_records() {
    let d = desc(RenderTextureType::Tex2d, 64, 64, 1, 1);
    let shader_read = RenderResourceStates { bits: RenderResourceStates::PIXEL_SHADER_RESOURCE };
    let t = texture_record(&d, 9, shader_read, true);
    assert_eq!(t.desc, d);
    assert_eq!(t.image, 9);
    assert!(t.owns_memory);
    assert_eq!(
        t.supported_states.bits,
        RenderResourceStates::PIXEL_SHADER_RESOURCE | RenderResourceStates::COPY_SOURCE | RenderResourceStates::COPY_DEST
    );
    assert_eq!(
        t.default_state.bits,
        RenderResourceStates::NON_PIXEL_SHADER_RESOURCE | RenderResourceStates::PIXEL_SHADER_RESOURCE
    );

    let bd = RenderBufferDesc { bind_flags: flags(RenderBindFlags::VERTEX_BUFFER), size: 256 };
    let vertex = RenderResourceStates { bits: RenderResourceStates::VERTEX_AND_CONSTANT_BUFFER };
    let b = buffer_record(&bd, 4, vertex, vertex);
    assert_eq!(b.desc, bd);
    assert_eq!(b.buffer, 4);
    assert_eq!(
        b.supported_states.bits,
        RenderResourceStates::VERTEX_AND_CONSTANT_BUFFER | RenderResourceStates::COPY_SOURCE | RenderResourceStates::COPY_DEST
    );
    assert_eq!(b.default_state, vertex);
}

#[test]
fn shader_views_get_their_objects() {
    let texture = ViewedTexture { image: 1, format: RenderFormat::R8g8b8a8Unorm, texture_type: RenderTextureType::Tex2d };
    let srv = TextureSrv {
        format: RenderFormat::R8g8b8a8Unorm,
        dimension: RenderViewDimension::Tex2d,
        most_detailed_mip: 0,
        mip_levels: 1,
        first_array_slice: 0,
        array_size: 1,
    };
    let shader_read = RenderResourceStates { bits: RenderResourceStates::PIXEL_SHADER_RESOURCE };
    let srvs = vec![
        ViewSource::TextureSrv { resource: 10, texture, default_state: shader_read, srv },
        ViewSource::Buffer { resource: 11, buffer: 5, size: 64, format: RenderFormat::R32Float },
        ViewSource::Buffer { resource: 12, buffer: 6, size: 64, format: RenderFormat::Unknown },
    ];
    let creations = view_creations(&srvs);
    assert_eq!(creations[0], ViewCreation::Image(srv_view_info(&texture, &srv)));
    assert_eq!(creations[1], ViewCreation::TypedBuffer { buffer: 5, format: vulkan::FORMAT_R32_SFLOAT });
    assert_eq!(creations[2], ViewCreation::Untyped);

    let record = shader_views_record(&srvs, &vec![100, 101, 102], &vec![], &vec![]);
    assert_eq!(record.srvs.len(), 3);
    assert!(record.uavs.is_empty());
    assert!(record.cached_descriptor_sets.is_empty());
    assert_eq!((record.srvs[0].resource, record.srvs[0].image_view, record.srvs[0].buffer_view), (10, 100, 0));
    assert_eq!((record.srvs[1].image_view, record.srvs[1].buffer_view), (0, 101));
    assert_eq!((record.srvs[2].image_view, record.srvs[2].buffer_view), (0, 0));
}
