use render_hal_vk::assoc::AssocList;
use render_hal_vk::compile::TrackerEntry;
use render_hal_vk::descriptor_cache::descriptor_image_layout;
use render_hal_vk::descriptor_cache::find_cached_set;
use render_hal_vk::descriptor_cache::layout_hash;
use render_hal_vk::descriptor_cache::memoize_plan;
use render_hal_vk::descriptor_cache::record_descriptor_set;
use render_hal_vk::descriptor_cache::BufferInfo;
use render_hal_vk::descriptor_cache::CachedDescriptorSet;
use render_hal_vk::descriptor_cache::ImageInfo;
use render_hal_vk::descriptor_cache::MemoizeStep;
use render_hal_vk::descriptor_cache::ShaderViewBinding;
use render_hal_vk::descriptor_cache::ViewResource;
use render_hal_vk::descriptors::SRV_OFFSET;
use render_hal_vk::descriptors::UAV_OFFSET;
use render_hal_vk::hashing::hash_codes;
use render_hal_vk::shader::binding_remap;
use render_hal_vk::shader::descriptor_count;
use render_hal_vk::shader::descriptor_type;
use render_hal_vk::shader::layout_binding;
use render_hal_vk::shader::plan_binding_remaps;
use render_hal_vk::shader::set_layout_bindings;
use render_hal_vk::shader::stage_flags;
use render_hal_vk::shader::BindingSetRemap;
use render_hal_vk::shader::ReflectDescriptorType;
use render_hal_vk::shader::ReflectResourceType;
use render_hal_vk::shader::ReflectedBinding;
use render_hal_vk::shader::ReflectedDescriptor;
use render_hal_vk::shader::REFLECT_STAGE_FRAGMENT;
use render_hal_vk::shader::REFLECT_STAGE_VERTEX;
use render_hal_vk::states::RenderResourceStates;
use render_hal_vk::types::DescriptorSetLayout;
use render_hal_vk::types::DescriptorSetLayoutBinding;
use render_hal_vk::vulkan;

fn reflected(binding: u32, resource_type: ReflectResourceType) -> ReflectedBinding {
    ReflectedBinding { binding, resource_type }
}

#[test]
fn bindings_move_into_their_ranges() {
    let srv = binding_remap(0, 2, 3, reflected(1, ReflectResourceType::ShaderResourceView));
    assert_eq!(srv, BindingSetRemap { binding_index: 3, old_binding: 1, new_binding: SRV_OFFSET + 1, old_set: 0, new_set: 0 });
    let cbv = binding_remap(1, 2, 0, reflected(0, ReflectResourceType::ConstantBufferView));
    assert_eq!((cbv.new_binding, cbv.new_set), (1, 5));
    let uav = binding_remap(1, 2, 1, reflected(2, ReflectResourceType::UnorderedAccessView));
    assert_eq!((uav.new_binding, uav.new_set), (UAV_OFFSET + 2, 1));
}

#[test]
fn remaps_accumulate_from_set_to_set() {
    let sets = vec![
        vec![reflected(0, ReflectResourceType::ShaderResourceView), reflected(1, ReflectResourceType::UnorderedAccessView)],
        vec![reflected(0, ReflectResourceType::ConstantBufferView), reflected(1, ReflectResourceType::Sampler)],
    ];
    let plan = plan_binding_remaps(&sets);
    assert_eq!(plan.len(), 2);
    assert_eq!(plan[0].len(), 2);
    assert_eq!(plan[1].len(), 4);
    assert_eq!(plan[1][0], plan[0][0]);
    assert_eq!((plan[1][2].new_binding, plan[1][2].new_set), (1, 5));
    assert_eq!((plan[1][3].new_binding, plan[1][3].new_set), (5, 1));
}

#[test]
fn reflected_descriptors_become_layout_bindings() {
    assert_eq!(descriptor_type(ReflectDescriptorType::UniformBuffer), vulkan::DESCRIPTOR_TYPE_UNIFORM_BUFFER);
    assert_eq!(descriptor_type(ReflectDescriptorType::InputAttachment), vulkan::DESCRIPTOR_TYPE_INPUT_ATTACHMENT);
    assert_eq!(descriptor_count(&vec![]), 1);
    assert_eq!(descriptor_count(&vec![2, 3, 4]), 24);
    assert_eq!(stage_flags(REFLECT_STAGE_VERTEX | REFLECT_STAGE_FRAGMENT), vulkan::SHADER_STAGE_VERTEX | vulkan::SHADER_STAGE_FRAGMENT);
    let d = ReflectedDescriptor { binding: 7, descriptor_type: ReflectDescriptorType::SampledImage, dims: vec![4] };
    let b = layout_binding(&d, REFLECT_STAGE_FRAGMENT);
    assert_eq!(
        b,
        DescriptorSetLayoutBinding {
            binding: 7,
            descriptor_type: vulkan::DESCRIPTOR_TYPE_SAMPLED_IMAGE,
            descriptor_count: 4,
            stage_flags: vulkan::SHADER_STAGE_FRAGMENT,
            immutable_sampler: None,
        }
    );
    assert_eq!(set_layout_bindings(&vec![d.clone(), d], REFLECT_STAGE_VERTEX).len(), 2);
}

fn texture_view(resource: u64, view: u64) -> ShaderViewBinding {
    ShaderViewBinding {
        resource,
        kind: ViewResource::Texture { default_state: RenderResourceStates { bits: RenderResourceStates::PIXEL_SHADER_RESOURCE } },
        image_view: view,
        buffer_view: 0,
    }
}

#[test]
fn view_layouts_and_their_hash() {
    let tracker: AssocList<TrackerEntry> = AssocList::new();
    let v = texture_view(1, 11);
    let layout = descriptor_image_layout(&tracker, &v);
    let other = ShaderViewBinding { resource: 2, kind: ViewResource::Other, image_view: 0, buffer_view: 0 };
    assert_eq!(descriptor_image_layout(&tracker, &other), vulkan::IMAGE_LAYOUT_UNDEFINED);
    assert_eq!(layout_hash(&tracker, &vec![v, other]), hash_codes(&vec![layout, vulkan::IMAGE_LAYOUT_UNDEFINED]));
    assert_eq!(layout_hash(&tracker, &vec![]), 0x02CC_5D05);
}

#[test]
fn descriptor_sets_are_planned_and_then_found() {
    let tracker: AssocList<TrackerEntry> = AssocList::new();
    let layouts = vec![DescriptorSetLayout {
        set_index: 0,
        bindings: vec![
            DescriptorSetLayoutBinding {
                binding: SRV_OFFSET,
                descriptor_type: vulkan::DESCRIPTOR_TYPE_SAMPLED_IMAGE,
                descriptor_count: 1,
                stage_flags: vulkan::SHADER_STAGE_FRAGMENT,
                immutable_sampler: None,
            },
            DescriptorSetLayoutBinding {
                binding: UAV_OFFSET,
                descriptor_type: vulkan::DESCRIPTOR_TYPE_STORAGE_BUFFER,
                descriptor_count: 1,
                stage_flags: vulkan::SHADER_STAGE_FRAGMENT,
                immutable_sampler: None,
            },
        ],
        layout: 100,
    }];
    let srvs = vec![texture_view(1, 11)];
    let uavs = vec![ShaderViewBinding { resource: 2, kind: ViewResource::Buffer { buffer: 22, size: 256 }, image_view: 0, buffer_view: 0 }];
    let mut cache = vec![];
    let step = memoize_plan(&tracker, 0, 7, &layouts, &srvs, &uavs, &cache);
    let key = match step {
        MemoizeStep::Create { key, layout_index, writes } => {
            assert_eq!(layout_index, 0);
            assert_eq!(writes.len(), 2);
            assert_eq!(writes[0].binding, SRV_OFFSET);
            assert_eq!(writes[0].image_info, Some(ImageInfo { layout: descriptor_image_layout(&tracker, &srvs[0]), view: 11 }));
            assert_eq!(writes[1].binding, UAV_OFFSET);
            assert_eq!(writes[1].buffer_info, Some(BufferInfo { buffer: 22, range: 256 }));
            assert_eq!((key.pipeline_state, key.set_index, key.descriptor_set), (7, 0, 0));
            key
        },
        _ => panic!("expected a new set"),
    };
    let entry = CachedDescriptorSet { descriptor_pool: 5, descriptor_set: 6, ..key };
    record_descriptor_set(&mut cache, entry);
    match memoize_plan(&tracker, 0, 7, &layouts, &srvs, &uavs, &cache) {
        MemoizeStep::Hit(found) => assert_eq!(found, entry),
        _ => panic!("expected a cache hit"),
    }
    assert_eq!(find_cached_set(&cache, 8, 0, key.srv_layout_hash, key.uav_layout_hash), None);
    assert!(matches!(memoize_plan(&tracker, 3, 7, &layouts, &srvs, &uavs, &cache), MemoizeStep::NoLayout));
}
