use render_hal_vk::format::RenderFormat;
use render_hal_vk::image::RenderTextureType;
use render_hal_vk::states::AccessType;
use render_hal_vk::states::BarrierLayout;
use render_hal_vk::states::RenderResourceStates;
use render_hal_vk::swap_chain::acquire_outcome;
use render_hal_vk::swap_chain::advance_frame_index;
use render_hal_vk::swap_chain::choose_present_mode;
use render_hal_vk::swap_chain::choose_surface_format;
use render_hal_vk::swap_chain::desired_image_count;
use render_hal_vk::swap_chain::pre_transform;
use render_hal_vk::swap_chain::present_outcome;
use render_hal_vk::swap_chain::present_plan;
use render_hal_vk::swap_chain::resized_texture_desc;
use render_hal_vk::swap_chain::surface_resolution;
use render_hal_vk::swap_chain::swap_chain_create_info;
use render_hal_vk::swap_chain::swap_chain_default_state;
use render_hal_vk::swap_chain::swap_chain_texture_desc;
use render_hal_vk::swap_chain::AcquireOutcome;
use render_hal_vk::swap_chain::Extent2D;
use render_hal_vk::swap_chain::PresentImage;
use render_hal_vk::swap_chain::PresentOutcome;
use render_hal_vk::swap_chain::SurfaceCapabilities;
use render_hal_vk::swap_chain::SurfaceFormat;
use render_hal_vk::swap_chain::SwapChainRecord;
use render_hal_vk::swap_chain::PresentStep;
use render_hal_vk::swap_chain::MAX_GPU_FRAMES;
use render_hal_vk::vulkan;

#[test]
fn frames_cycle_through_all_slots() {
    let mut frame = 0;
    let mut seen = vec![frame];
    for _ in 0..MAX_GPU_FRAMES {
        let (next, wait) = advance_frame_index(frame);
        assert_eq!(wait, 0);
        frame = next;
        seen.push(frame);
    }
    assert_eq!(seen, vec![0, 1, 0]);
}

#[test]
fn undefined_surface_format_becomes_bgra() {
    let formats = vec![
        SurfaceFormat { format: vulkan::FORMAT_UNDEFINED, color_space: 0 },
        SurfaceFormat { format: 44, color_space: 0 },
    ];
    let chosen = choose_surface_format(&formats);
    assert_eq!(chosen, SurfaceFormat { format: vulkan::FORMAT_B8G8R8_UNORM, color_space: 0 });
    let formats = vec![SurfaceFormat { format: 44, color_space: 3 }];
    assert_eq!(choose_surface_format(&formats), SurfaceFormat { format: 44, color_space: 3 });
}

#[test]
fn image_count_is_one_more_than_minimum_within_maximum() {
    assert_eq!(desired_image_count(2, 0), 3);
    assert_eq!(desired_image_count(2, 8), 3);
    assert_eq!(desired_image_count(3, 3), 3);
}

#[test]
fn resolution_comes_from_surface_unless_left_open() {
    let fixed = Extent2D { width: 800, height: 600 };
    assert_eq!(surface_resolution(fixed, 1024, 768), fixed);
    let open = Extent2D { width: u32::MAX, height: u32::MAX };
    assert_eq!(surface_resolution(open, 1024, 768), Extent2D { width: 1024, height: 768 });
}

#[test]
fn transform_prefers_identity() {
    assert_eq!(pre_transform(0x1 | 0x2, 0x2), vulkan::SURFACE_TRANSFORM_IDENTITY);
    assert_eq!(pre_transform(0x2, 0x2), 0x2);
}

#[test]
fn present_mode_prefers_mailbox() {
    assert_eq!(choose_present_mode(&vec![vulkan::PRESENT_MODE_FIFO, vulkan::PRESENT_MODE_MAILBOX]), vulkan::PRESENT_MODE_MAILBOX);
    assert_eq!(choose_present_mode(&vec![0, vulkan::PRESENT_MODE_FIFO]), vulkan::PRESENT_MODE_FIFO);
    assert_eq!(choose_present_mode(&vec![]), vulkan::PRESENT_MODE_FIFO);
}

#[test]
fn create_info_combines_the_choices() {
    let caps = SurfaceCapabilities {
        formats: vec![SurfaceFormat { format: 44, color_space: 0 }],
        min_image_count: 2,
        max_image_count: 0,
        current_extent: Extent2D { width: u32::MAX, height: u32::MAX },
        supported_transforms: 1,
        current_transform: 1,
        present_modes: vec![vulkan::PRESENT_MODE_MAILBOX],
    };
    let info = swap_chain_create_info(&caps, 640, 480);
    assert_eq!(info.min_image_count, 3);
    assert_eq!(info.image_format, 44);
    assert_eq!(info.image_extent, Extent2D { width: 640, height: 480 });
    assert_eq!(info.image_array_layers, 1);
    assert_eq!(info.present_mode, vulkan::PRESENT_MODE_MAILBOX);
    assert_eq!(info.clipped, 1);
    assert_eq!(info.image_sharing_mode, vulkan::SHARING_MODE_EXCLUSIVE);
}

#[test]
fn swap_chain_textures_are_single_2d_targets() {
    let desc = swap_chain_texture_desc(RenderFormat::R8g8b8a8Unorm, 320, 200);
    assert_eq!(desc.texture_type, RenderTextureType::Tex2d);
    assert_eq!((desc.width, desc.height, desc.depth, desc.levels, desc.elements), (320, 200, 1, 1, 1));
    let resized = resized_texture_desc(&desc, 640, 400);
    assert_eq!((resized.width, resized.height), (640, 400));
    assert_eq!(resized.format, desc.format);
    assert_eq!(swap_chain_default_state().bits, RenderResourceStates::COMMON);
}

#[test]
fn acquire_results_are_classified() {
    assert_eq!(acquire_outcome(Ok(2)), AcquireOutcome::Present(2));
    assert_eq!(acquire_outcome(Err(vulkan::RESULT_ERROR_OUT_OF_DATE_KHR)), AcquireOutcome::Skip);
    assert_eq!(acquire_outcome(Err(vulkan::RESULT_SUBOPTIMAL_KHR)), AcquireOutcome::Skip);
    assert_eq!(acquire_outcome(Err(vulkan::RESULT_ERROR_DEVICE_LOST)), AcquireOutcome::Fail);
}

#[test]
fn present_results_are_classified() {
    assert_eq!(present_outcome(Ok(false)), PresentOutcome::Presented);
    assert_eq!(present_outcome(Err(vulkan::RESULT_SUBOPTIMAL_KHR)), PresentOutcome::Suboptimal);
    assert_eq!(present_outcome(Err(vulkan::RESULT_ERROR_OUT_OF_DATE_KHR)), PresentOutcome::OutOfDate);
    assert_eq!(present_outcome(Err(-4)), PresentOutcome::Failed(-4));
}

#[test]
fn presenting_restores_the_source_texture() {
    let src = PresentImage {
        image: 10,
        width: 64,
        height: 32,
        default_state: RenderResourceStates {
            bits: RenderResourceStates::PIXEL_SHADER_RESOURCE | RenderResourceStates::NON_PIXEL_SHADER_RESOURCE,
        },
    };
    let dst = PresentImage { image: 20, width: 64, height: 32, default_state: swap_chain_default_state() };
    let plan = present_plan(&src, &dst);
    assert_eq!(plan.src_to_copy.previous_access, AccessType::AnyShaderReadSampledImageOrUniformTexelBuffer);
    assert_eq!(plan.src_to_copy.next_access, AccessType::TransferRead);
    assert_eq!(plan.copy_to_src.previous_access, plan.src_to_copy.next_access);
    assert_eq!(plan.copy_to_src.next_access, plan.src_to_copy.previous_access);
    assert_eq!(plan.copy_to_src.next_layout, BarrierLayout::General);
    assert!(plan.swap_to_copy.discard_contents);
    assert_eq!(plan.swap_to_copy.image, 20);
    assert_eq!(plan.copy_to_swap.next_access, AccessType::Present);
    assert_eq!((plan.blit.src_width, plan.blit.dst_height), (64, 32));

    let common = PresentImage { default_state: swap_chain_default_state(), ..src };
    let plan = present_plan(&common, &dst);
    assert_eq!(plan.src_to_copy.previous_access, AccessType::Nothing);
    assert_eq!(plan.copy_to_src.next_layout, BarrierLayout::General);
    let target = PresentImage { default_state: RenderResourceStates { bits: RenderResourceStates::RENDER_TARGET }, ..src };
    let plan = present_plan(&target, &dst);
    assert_eq!(plan.copy_to_src.next_access, AccessType::ColorAttachmentWrite);
    assert_eq!(plan.copy_to_src.next_layout, BarrierLayout::Optimal);
}

#[test]
fn swap_chain_record_is_made_and_resized() {
    let caps = SurfaceCapabilities {
        formats: vec![SurfaceFormat { format: 44, color_space: 0 }],
        min_image_count: 2,
        max_image_count: 0,
        current_extent: Extent2D { width: u32::MAX, height: u32::MAX },
        supported_transforms: 1,
        current_transform: 1,
        present_modes: vec![],
    };
    let info = swap_chain_create_info(&caps, 640, 480);
    let render_target = RenderResourceStates { bits: RenderResourceStates::RENDER_TARGET };
    let mut record = SwapChainRecord::new(info, RenderFormat::B8g8r8a8Unorm, 640, 480, &vec![11, 12, 13], render_target);
    assert_eq!(record.back_buffer_index, 0);
    assert_eq!(record.info, info);
    assert_eq!(record.textures.len(), 3);
    assert_eq!(record.textures[1].image, 12);
    assert_eq!(record.textures[1].desc, swap_chain_texture_desc(RenderFormat::B8g8r8a8Unorm, 640, 480));
    assert!(!record.textures[1].owns_memory);
    assert_eq!(record.textures[1].supported_states, render_target);
    assert_eq!(record.textures[1].default_state.bits, RenderResourceStates::COMMON);

    record.back_buffer_index = 2;
    record.resize(800, 600, &vec![21, 22], render_target);
    assert_eq!(record.back_buffer_index, 0);
    assert_eq!(record.info.image_extent, Extent2D { width: 800, height: 600 });
    assert_eq!(record.info.present_mode, info.present_mode);
    assert_eq!(record.textures.len(), 2);
    assert_eq!(record.textures[0].image, 21);
    assert_eq!((record.textures[0].desc.width, record.textures[0].desc.height), (800, 600));
    assert_eq!(record.textures[0].desc.format, RenderFormat::B8g8r8a8Unorm);
    assert_eq!(record.textures[0].desc.texture_type, RenderTextureType::Tex2d);
}

#[test]
fn present_step_points_at_the_acquired_image() {
    let caps = SurfaceCapabilities {
        formats: vec![SurfaceFormat { format: 44, color_space: 0 }],
        min_image_count: 2,
        max_image_count: 0,
        current_extent: Extent2D { width: 64, height: 32 },
        supported_transforms: 1,
        current_transform: 1,
        present_modes: vec![],
    };
    let info = swap_chain_create_info(&caps, 64, 32);
    let render_target = RenderResourceStates { bits: RenderResourceStates::RENDER_TARGET };
    let mut record = SwapChainRecord::new(info, RenderFormat::B8g8r8a8Unorm, 64, 32, &vec![11, 12], render_target);
    let src = PresentImage { image: 5, width: 64, height: 32, default_state: render_target };
    match record.present_step(AcquireOutcome::Present(1), &src) {
        PresentStep::Copy(plan) => {
            assert_eq!(plan.src_to_copy.image, 5);
            assert_eq!(plan.swap_to_copy.image, 12);
            assert!(plan.swap_to_copy.discard_contents);
            assert_eq!(plan.copy_to_swap.next_access, AccessType::Present);
            assert_eq!((plan.blit.dst_width, plan.blit.dst_height), (64, 32));
        }
        PresentStep::Skip => panic!("an acquired image is presented"),
    }
    assert_eq!(record.back_buffer_index, 1);
    assert!(matches!(record.present_step(AcquireOutcome::Skip, &src), PresentStep::Skip));
    assert_eq!(record.back_buffer_index, 1);
}
