use render_hal_vk::descriptors::find_layout_binding;
use render_hal_vk::descriptors::find_layout_set;
use render_hal_vk::descriptors::merge_descriptor_set_layouts;
use render_hal_vk::descriptors::tally_descriptor_pool_sizes;
use render_hal_vk::descriptors::SET_OFFSET;
use render_hal_vk::descriptors::SMP_OFFSET;
use render_hal_vk::format::RenderBlendMode;
use render_hal_vk::format::RenderBlendOp;
use render_hal_vk::format::RenderFormat;
use render_hal_vk::pipeline::append_bindings;
use render_hal_vk::pipeline::append_sampler_bindings;
use render_hal_vk::pipeline::color_blend_attachments;
use render_hal_vk::pipeline::color_write_mask;
use render_hal_vk::pipeline::is_graphics_stage;
use render_hal_vk::pipeline::layout_pool_sizes;
use render_hal_vk::pipeline::pipeline_set_layouts;
use render_hal_vk::pipeline::pipeline_layout_data;
use render_hal_vk::pipeline::sort_layouts_by_set;
use render_hal_vk::pipeline::static_sampler_bindings;
use render_hal_vk::pipeline::vertex_attributes;
use render_hal_vk::pipeline::vertex_bindings;
use render_hal_vk::pipeline::RenderTargetBlendState;
use render_hal_vk::pipeline::RenderVertexElement;
use render_hal_vk::pipeline::WRITE_MASK_ALPHA;
use render_hal_vk::pipeline::WRITE_MASK_RED;
use render_hal_vk::states::RenderShaderType;
use render_hal_vk::types::DescriptorPoolSize;
use render_hal_vk::types::DescriptorSetLayout;
use render_hal_vk::types::DescriptorSetLayoutBinding;
use render_hal_vk::types::RenderShaderVk;
use render_hal_vk::vulkan;

fn binding(number: u32, descriptor_type: i32, stage_flags: u32) -> DescriptorSetLayoutBinding {
    DescriptorSetLayoutBinding { binding: number, descriptor_type, descriptor_count: 1, stage_flags, immutable_sampler: None }
}

fn layout(set_index: u32, bindings: Vec<DescriptorSetLayoutBinding>, handle: u64) -> DescriptorSetLayout {
    DescriptorSetLayout { set_index, bindings, layout: handle }
}

#[test]
fn static_samplers_follow_the_sampler_offset() {
    let bindings = static_sampler_bindings(&vec![7, 8]);
    assert_eq!(bindings.len(), 2);
    assert_eq!(bindings[1].binding, SMP_OFFSET + 1);
    assert_eq!(bindings[0].descriptor_type, vulkan::DESCRIPTOR_TYPE_SAMPLER);
    assert_eq!(bindings[0].stage_flags, vulkan::SHADER_STAGE_ALL_GRAPHICS);
    assert_eq!(bindings[1].immutable_sampler, Some(8));
    assert!(is_graphics_stage(RenderShaderType::Pixel));
    assert!(!is_graphics_stage(RenderShaderType::Compute));
}

#[test]
fn layouts_are_sorted_by_set_and_get_samplers() {
    let mut layouts = vec![
        layout(2, vec![binding(0, vulkan::DESCRIPTOR_TYPE_UNIFORM_BUFFER, 1)], 12),
        layout(0, vec![], 10),
        layout(1, vec![], 11),
    ];
    sort_layouts_by_set(&mut layouts);
    let sets: Vec<u32> = layouts.iter().map(|l| l.set_index).collect();
    assert_eq!(sets, vec![0, 1, 2]);
    assert_eq!(layouts[2].layout, 12);
    let samplers = static_sampler_bindings(&vec![99]);
    append_sampler_bindings(&mut layouts, &samplers);
    assert!(layouts.iter().all(|l| l.bindings.last().map(|b| b.immutable_sampler) == Some(Some(99))));
    assert_eq!(layouts[2].bindings.len(), 2);
    let mut bs = vec![binding(1, 0, 0)];
    append_bindings(&mut bs, &vec![binding(2, 0, 0)]);
    assert_eq!(bs.iter().map(|b| b.binding).collect::<Vec<u32>>(), vec![1, 2]);
}

#[test]
fn set_layout_slots_fill_gaps_and_append_constant_buffers() {
    let layouts = vec![layout(1, vec![], 11), layout(2, vec![], 12)];
    let slots = pipeline_set_layouts(&layouts, &vec![100, 101, 102], 5);
    assert_eq!(slots, vec![5, 11, 12, 100, 101, 102]);
}

#[test]
fn pool_sizes_are_tallied_per_type() {
    let layouts = vec![
        layout(0, vec![binding(0, vulkan::DESCRIPTOR_TYPE_UNIFORM_BUFFER, 1), binding(1, vulkan::DESCRIPTOR_TYPE_SAMPLED_IMAGE, 1)], 1),
        layout(1, vec![binding(0, vulkan::DESCRIPTOR_TYPE_UNIFORM_BUFFER, 1)], 2),
    ];
    let sizes = layout_pool_sizes(&layouts);
    assert_eq!(
        sizes,
        vec![
            DescriptorPoolSize { ty: vulkan::DESCRIPTOR_TYPE_UNIFORM_BUFFER, descriptor_count: 2 },
            DescriptorPoolSize { ty: vulkan::DESCRIPTOR_TYPE_SAMPLED_IMAGE, descriptor_count: 1 },
        ]
    );
    let mut pool = vec![];
    tally_descriptor_pool_sizes(&mut pool, 3);
    tally_descriptor_pool_sizes(&mut pool, 3);
    tally_descriptor_pool_sizes(&mut pool, 4);
    assert_eq!(pool, vec![DescriptorPoolSize { ty: 3, descriptor_count: 2 }, DescriptorPoolSize { ty: 4, descriptor_count: 1 }]);
}

#[test]
fn find_layout_set_and_binding() {
    let layouts = vec![layout(3, vec![binding(4, 0, 0), binding(9, 0, 0)], 1), layout(5, vec![], 2)];
    assert_eq!(find_layout_set(&layouts, 5), 1);
    assert_eq!(find_layout_set(&layouts, 6), -1);
    assert_eq!(find_layout_binding(&layouts[0], 9), 1);
    assert_eq!(find_layout_binding(&layouts[0], 5), -1);
}

#[test]
fn stages_merge_their_bindings() {
    let vertex = RenderShaderVk {
        name: "vs".to_string(),
        module: 1,
        set_layouts: vec![
            (0, vec![binding(0, vulkan::DESCRIPTOR_TYPE_UNIFORM_BUFFER, vulkan::SHADER_STAGE_VERTEX)]),
            (SET_OFFSET, vec![binding(0, vulkan::DESCRIPTOR_TYPE_UNIFORM_BUFFER_DYNAMIC, vulkan::SHADER_STAGE_VERTEX)]),
        ],
        entry_point: "main".to_string(),
    };
    let pixel = RenderShaderVk {
        name: "ps".to_string(),
        module: 2,
        set_layouts: vec![(
            0,
            vec![
                binding(0, vulkan::DESCRIPTOR_TYPE_UNIFORM_BUFFER, vulkan::SHADER_STAGE_FRAGMENT),
                binding(1, vulkan::DESCRIPTOR_TYPE_SAMPLER, vulkan::SHADER_STAGE_FRAGMENT),
                binding(2, vulkan::DESCRIPTOR_TYPE_SAMPLED_IMAGE, vulkan::SHADER_STAGE_FRAGMENT),
            ],
        )],
        entry_point: "main".to_string(),
    };
    let mut combined = vec![];
    merge_descriptor_set_layouts(&vertex, &mut combined);
    merge_descriptor_set_layouts(&pixel, &mut combined);
    assert_eq!(combined.len(), 1);
    assert_eq!(combined[0].set_index, 0);
    let numbers: Vec<u32> = combined[0].bindings.iter().map(|b| b.binding).collect();
    assert_eq!(numbers, vec![0, 2]);
    assert_eq!(combined[0].bindings[0].stage_flags, vulkan::SHADER_STAGE_VERTEX | vulkan::SHADER_STAGE_FRAGMENT);
}

#[test]
fn vertex_input_from_strides_and_elements() {
    let bindings = vertex_bindings(&vec![16, 0, 8]);
    assert_eq!(bindings.len(), 2);
    assert_eq!((bindings[0].binding, bindings[0].stride), (0, 16));
    assert_eq!((bindings[1].binding, bindings[1].stride), (2, 8));
    assert_eq!(bindings[1].input_rate, vulkan::VERTEX_INPUT_RATE_VERTEX);
    let elements = vec![
        RenderVertexElement { stream: 0, offset: 0, format: RenderFormat::R8g8b8a8Unorm },
        RenderVertexElement { stream: 2, offset: 4, format: RenderFormat::R8g8b8a8Unorm },
        RenderVertexElement { stream: 1, offset: 8, format: RenderFormat::R8g8b8a8Unorm },
    ];
    let attributes = vertex_attributes(&elements, 2);
    assert_eq!(attributes.len(), 2);
    assert_eq!((attributes[1].location, attributes[1].binding, attributes[1].offset), (1, 2, 4));
    assert_eq!(attributes[1].format, vulkan::FORMAT_R8G8B8A8_UNORM);
}

#[test]
fn blend_state_per_slot() {
    assert_eq!(color_write_mask(0xF), 0xF);
    assert_eq!(color_write_mask(WRITE_MASK_RED | WRITE_MASK_ALPHA), vulkan::COLOR_COMPONENT_R | vulkan::COLOR_COMPONENT_A);
    assert_eq!(color_write_mask(0), 0);
    let blend = RenderTargetBlendState {
        blend_enable: true,
        source_color: RenderBlendMode::SourceAlpha,
        dest_color: RenderBlendMode::InvSourceAlpha,
        op_color: RenderBlendOp::Add,
        source_alpha: RenderBlendMode::One,
        dest_alpha: RenderBlendMode::Zero,
        op_alpha: RenderBlendOp::Max,
    };
    let r = color_blend_attachments(&vec![RenderFormat::R8g8b8a8Unorm, RenderFormat::Unknown], &vec![blend, blend], &vec![0xF, 0xF]);
    assert_eq!(r.len(), 2);
    assert_eq!(r[0].blend_enable, vulkan::TRUE);
    assert_eq!(r[0].src_color_blend_factor, vulkan::BLEND_FACTOR_SRC_ALPHA);
    assert_eq!(r[0].dst_color_blend_factor, vulkan::BLEND_FACTOR_ONE_MINUS_SRC_ALPHA);
    assert_eq!(r[0].alpha_blend_op, vulkan::BLEND_OP_MAX);
    assert_eq!(r[0].color_write_mask, 0xF);
    assert_eq!(r[1].blend_enable, vulkan::FALSE);
    assert_eq!(r[1].color_write_mask, 0);
}

#[test]
fn pipeline_layout_is_merged_ordered_and_counted() {
    let vertex = RenderShaderVk {
        name: "vs".to_string(),
        module: 1,
        set_layouts: vec![
            (2, vec![binding(0, vulkan::DESCRIPTOR_TYPE_UNIFORM_BUFFER, vulkan::SHADER_STAGE_VERTEX)]),
            (0, vec![binding(1, vulkan::DESCRIPTOR_TYPE_SAMPLED_IMAGE, vulkan::SHADER_STAGE_VERTEX)]),
        ],
        entry_point: "main".to_string(),
    };
    let compute = RenderShaderVk {
        name: "cs".to_string(),
        module: 3,
        set_layouts: vec![(5, vec![binding(0, vulkan::DESCRIPTOR_TYPE_STORAGE_BUFFER, vulkan::SHADER_STAGE_COMPUTE)])],
        entry_point: "main".to_string(),
    };
    let pixel = RenderShaderVk {
        name: "ps".to_string(),
        module: 2,
        set_layouts: vec![(0, vec![binding(1, vulkan::DESCRIPTOR_TYPE_SAMPLED_IMAGE, vulkan::SHADER_STAGE_FRAGMENT)])],
        entry_point: "main".to_string(),
    };
    let stages = vec![
        (RenderShaderType::Vertex, vertex),
        (RenderShaderType::Compute, compute),
        (RenderShaderType::Pixel, pixel),
    ];
    let data = pipeline_layout_data(&stages, &vec![77]);
    assert_eq!(data.sampler_layouts.len(), 1);
    assert_eq!(data.sampler_layouts[0].binding, SMP_OFFSET);
    assert_eq!(data.sampler_layouts[0].immutable_sampler, Some(77));
    let sets: Vec<u32> = data.combined_layouts.iter().map(|l| l.set_index).collect();
    assert_eq!(sets, vec![0, 2]);
    assert_eq!(data.combined_layouts[0].bindings.len(), 2);
    assert_eq!(data.combined_layouts[0].bindings[0].stage_flags, vulkan::SHADER_STAGE_VERTEX | vulkan::SHADER_STAGE_FRAGMENT);
    assert_eq!(data.combined_layouts[0].bindings[1], data.sampler_layouts[0]);
    assert_eq!(data.combined_layouts[1].bindings[1], data.sampler_layouts[0]);
    assert_eq!(
        data.pool_sizes,
        vec![
            DescriptorPoolSize { ty: vulkan::DESCRIPTOR_TYPE_SAMPLED_IMAGE, descriptor_count: 1 },
            DescriptorPoolSize { ty: vulkan::DESCRIPTOR_TYPE_SAMPLER, descriptor_count: 2 },
            DescriptorPoolSize { ty: vulkan::DESCRIPTOR_TYPE_UNIFORM_BUFFER, descriptor_count: 1 },
        ]
    );
    let empty = pipeline_layout_data(&vec![], &vec![]);
    assert!(empty.combined_layouts.is_empty() && empty.pool_sizes.is_empty());
}
