use render_hal_vk::format::RenderFormat;
use render_hal_vk::hashing::hash_codes;
use render_hal_vk::image::RenderViewDimension;
use render_hal_vk::render_pass::attachment_hash;
use render_hal_vk::render_pass::compat_color_attachments;
use render_hal_vk::render_pass::compat_render_pass_plan;
use render_hal_vk::render_pass::depth_stencil_layout;
use render_hal_vk::render_pass::depth_view_aspect;
use render_hal_vk::render_pass::frame_binding_plan;
use render_hal_vk::render_pass::get_load_op;
use render_hal_vk::render_pass::get_store_op;
use render_hal_vk::render_pass::pass_depth_state;
use render_hal_vk::render_pass::render_pass_plan;
use render_hal_vk::render_pass::render_pass_targets;
use render_hal_vk::render_pass::render_target_view_info;
use render_hal_vk::render_pass::restores_depth_stencil;
use render_hal_vk::render_pass::ClearSource;
use render_hal_vk::render_pass::CompatRenderPassCache;
use render_hal_vk::render_pass::DepthStencilView;
use render_hal_vk::render_pass::depth_stencil_view_info;
use render_hal_vk::render_pass::RenderLoadOp;
use render_hal_vk::render_pass::RenderStoreOp;
use render_hal_vk::render_pass::RenderTargetInfo;
use render_hal_vk::render_pass::RenderTargetView;
use render_hal_vk::states::RenderResourceStates;
use render_hal_vk::vulkan;

#[test]
fn digests_of_known_inputs() {
    assert_eq!(hash_codes(&vec![]), 0x02CC_5D05);
    assert_eq!(hash_codes(&vec![1]), 0xF3BB_7693);
    assert_eq!(hash_codes(&vec![1, 2, 3]), 0x1F57_8C88);
    assert_eq!(attachment_hash(&vec![]), 0x02CC_5D05);
}

#[test]
fn compatible_pass_hashes_its_color_attachments() {
    let formats = vec![RenderFormat::R8g8b8a8Unorm];
    let (attachments, references) = compat_color_attachments(&formats);
    assert_eq!(attachments.len(), 1);
    assert_eq!(attachments[0].format, vulkan::FORMAT_R8G8B8A8_UNORM);
    assert_eq!(attachments[0].load_op, vulkan::ATTACHMENT_LOAD_OP_DONT_CARE);
    assert_eq!(references[0].attachment, 0);
    assert_eq!(attachment_hash(&attachments), 0x205F_4C6C);

    let plan = compat_render_pass_plan(&formats, 1, RenderFormat::D32Float);
    assert_eq!(plan.hash, 0x205F_4C6C);
    assert_eq!(plan.attachments.len(), 2);
    assert_eq!(plan.attachments[1].format, vulkan::FORMAT_D32_SFLOAT);
    assert_eq!(plan.depth_reference.attachment, 1);
    let plain = compat_render_pass_plan(&formats, 1, RenderFormat::Unknown);
    assert_eq!(plain.hash, plan.hash);
    assert_eq!(plain.depth_reference.attachment, vulkan::ATTACHMENT_UNUSED);
}

#[test]
fn empty_slots_get_unused_references() {
    let formats = vec![RenderFormat::Unknown, RenderFormat::R8g8b8a8Unorm, RenderFormat::Unknown, RenderFormat::R8g8b8a8Unorm];
    let (attachments, references) = compat_color_attachments(&formats);
    assert_eq!(attachments.len(), 2);
    let numbers: Vec<u32> = references.iter().map(|r| r.attachment).collect();
    assert_eq!(numbers, vec![vulkan::ATTACHMENT_UNUSED, 0, vulkan::ATTACHMENT_UNUSED, 1]);
}

#[test]
fn cache_finds_what_was_inserted() {
    let mut cache = CompatRenderPassCache::new();
    assert_eq!(cache.lookup(5), None);
    cache.insert(5, 500);
    cache.insert(6, 0);
    assert_eq!(cache.lookup(5), Some(500));
    assert_eq!(cache.lookup(6), None);
    cache.insert(5, 501);
    assert_eq!(cache.lookup(5), Some(501));
}

#[test]
fn load_store_ops_and_depth_layouts() {
    assert_eq!(get_load_op(RenderLoadOp::Clear), vulkan::ATTACHMENT_LOAD_OP_CLEAR);
    assert_eq!(get_load_op(RenderLoadOp::Load), vulkan::ATTACHMENT_LOAD_OP_LOAD);
    assert_eq!(get_load_op(RenderLoadOp::Discard), vulkan::ATTACHMENT_LOAD_OP_DONT_CARE);
    assert_eq!(get_store_op(RenderStoreOp::Store), vulkan::ATTACHMENT_STORE_OP_STORE);
    assert_eq!(depth_stencil_layout(true, true, true), vulkan::IMAGE_LAYOUT_DEPTH_STENCIL_READ_ONLY_OPTIMAL);
    assert_eq!(depth_stencil_layout(true, true, false), vulkan::IMAGE_LAYOUT_DEPTH_READ_ONLY_STENCIL_ATTACHMENT_OPTIMAL);
    assert_eq!(depth_stencil_layout(true, false, true), vulkan::IMAGE_LAYOUT_DEPTH_ATTACHMENT_STENCIL_READ_ONLY_OPTIMAL);
    assert_eq!(depth_stencil_layout(false, false, true), vulkan::IMAGE_LAYOUT_DEPTH_STENCIL_ATTACHMENT_OPTIMAL);
    assert_eq!(depth_stencil_layout(false, true, false), vulkan::IMAGE_LAYOUT_DEPTH_STENCIL_READ_ONLY_OPTIMAL);
    assert!(restores_depth_stencil(vulkan::IMAGE_LAYOUT_DEPTH_STENCIL_READ_ONLY_OPTIMAL));
    assert!(!restores_depth_stencil(vulkan::IMAGE_LAYOUT_DEPTH_STENCIL_ATTACHMENT_OPTIMAL));
    assert_eq!(pass_depth_state(true, false).bits, RenderResourceStates::DEPTH_READ);
    assert_eq!(pass_depth_state(false, true).bits, RenderResourceStates::DEPTH_WRITE);
}

#[test]
fn pass_plan_numbers_references_by_slot() {
    let clear = RenderTargetInfo { load_op: RenderLoadOp::Clear, store_op: RenderStoreOp::Store };
    let plan = render_pass_plan(
        &vec![RenderFormat::R8g8b8a8Unorm, RenderFormat::Unknown, RenderFormat::R8g8b8a8Unorm],
        &vec![true, false, true],
        &vec![clear, clear, clear],
        RenderFormat::D32Float,
        true,
        false,
        false,
        RenderTargetInfo { load_op: RenderLoadOp::Load, store_op: RenderStoreOp::Discard },
    );
    assert_eq!(plan.attachments.len(), 3);
    assert_eq!(plan.attachments[0].load_op, vulkan::ATTACHMENT_LOAD_OP_CLEAR);
    let numbers: Vec<u32> = plan.color_references.iter().map(|r| r.attachment).collect();
    assert_eq!(numbers, vec![0, vulkan::ATTACHMENT_UNUSED, 2]);
    assert_eq!(plan.depth_reference.attachment, 2);
    assert_eq!(plan.depth_stencil_layout, vulkan::IMAGE_LAYOUT_DEPTH_STENCIL_ATTACHMENT_OPTIMAL);
    assert_eq!(plan.attachments[2].load_op, vulkan::ATTACHMENT_LOAD_OP_LOAD);
    assert_eq!(plan.attachments[2].store_op, vulkan::ATTACHMENT_STORE_OP_DONT_CARE);
    assert_eq!(plan.clear_sources, vec![ClearSource::Color(0), ClearSource::Color(2), ClearSource::DepthStencil]);

    let no_depth = render_pass_plan(
        &vec![RenderFormat::R8g8b8a8Unorm],
        &vec![true],
        &vec![clear],
        RenderFormat::Unknown,
        false,
        false,
        false,
        clear,
    );
    assert_eq!(no_depth.depth_reference.attachment, vulkan::ATTACHMENT_UNUSED);
    assert_eq!(no_depth.depth_stencil_layout, vulkan::IMAGE_LAYOUT_UNDEFINED);
    assert_eq!(no_depth.clear_sources, vec![ClearSource::Color(0)]);
}

#[test]
fn frame_binding_views_and_size() {
    let rtv = RenderTargetView {
        image: 1,
        width: 256,
        height: 128,
        dimension: RenderViewDimension::Tex2dArray,
        format: RenderFormat::R8g8b8a8Unorm,
        mip_slice: 1,
        first_array_slice: 3,
    };
    let info = render_target_view_info(&rtv);
    assert_eq!(info.view_type, vulkan::IMAGE_VIEW_TYPE_TYPE_2D_ARRAY);
    assert_eq!((info.base_mip_level, info.base_array_layer, info.layer_count), (1, 3, 1));
    assert_eq!(info.aspect_mask, vulkan::IMAGE_ASPECT_COLOR);
    let flat = render_target_view_info(&RenderTargetView { dimension: RenderViewDimension::Tex2d, ..rtv });
    assert_eq!(flat.base_array_layer, 0);

    let depth = DepthStencilView {
        image: 2,
        width: 256,
        height: 128,
        dimension: RenderViewDimension::Tex2d,
        format: RenderFormat::D32Float,
        mip_slice: 1,
        supported_states: RenderResourceStates { bits: RenderResourceStates::DEPTH_WRITE },
    };
    let plan = frame_binding_plan(&vec![rtv], Some(depth));
    assert_eq!(plan.render_target_count, 1);
    let depth_info = depth_stencil_view_info(&depth);
    assert_eq!(depth_info.aspect_mask, vulkan::IMAGE_ASPECT_DEPTH);
    assert_eq!(depth_info.view_type, vulkan::IMAGE_VIEW_TYPE_TYPE_2D);
    assert_eq!((depth_info.image, depth_info.base_mip_level, depth_info.level_count), (2, 0, 1));
    assert_eq!(plan.image_views, vec![info, depth_info]);
    let stencil = depth_stencil_view_info(&DepthStencilView { format: RenderFormat::D32FloatS8Uint, ..depth });
    assert_eq!(stencil.aspect_mask, vulkan::IMAGE_ASPECT_DEPTH | vulkan::IMAGE_ASPECT_STENCIL);
    assert_eq!((plan.width, plan.height), (128, 64));
    let empty = frame_binding_plan(&vec![], None);
    assert_eq!((empty.width, empty.height, empty.render_target_count), (0, 0, 0));
    assert_eq!(depth_view_aspect(RenderFormat::D32Float), vulkan::IMAGE_ASPECT_DEPTH);
    assert_eq!(depth_view_aspect(RenderFormat::D32FloatS8Uint), vulkan::IMAGE_ASPECT_DEPTH | vulkan::IMAGE_ASPECT_STENCIL);
}

#[test]
fn pass_targets_come_from_the_back_buffer_slots() {
    let mut handles = vec![None; 16];
    handles[0] = Some(10);
    handles[8] = Some(20);
    handles[9] = None;
    handles[10] = Some(22);
    assert_eq!(render_pass_targets(&handles, None, 2), vec![10]);
    assert_eq!(render_pass_targets(&handles, Some(1), 3), vec![20, 22]);
}
