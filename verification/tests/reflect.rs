use render_hal_vk::reflect::decode_declared;
use render_hal_vk::reflect::decode_patched;
use render_hal_vk::reflect::descriptor_type_of;
use render_hal_vk::reflect::DeclaredBinding;
use render_hal_vk::reflect::PatchedBinding;
use render_hal_vk::shader::ReflectedBinding;
use render_hal_vk::reflect::plan_shader_moves;
use render_hal_vk::reflect::shader_layouts_of;
use render_hal_vk::reflect::patches_of;
use render_hal_vk::reflect::resource_type_of;
use render_hal_vk::shader::ReflectDescriptorType;
use render_hal_vk::shader::ReflectResourceType;

#[test]
fn kind_codes_follow_declaration_order() {
    assert_eq!(resource_type_of(3), Some(ReflectResourceType::ConstantBufferView));
    assert_eq!(resource_type_of(5), Some(ReflectResourceType::UnorderedAccessView));
    assert_eq!(resource_type_of(6), None);
    assert_eq!(descriptor_type_of(7), Some(ReflectDescriptorType::UniformBuffer));
    assert_eq!(descriptor_type_of(12), Some(ReflectDescriptorType::AccelerationStructure));
    assert_eq!(descriptor_type_of(13), None);
}

#[test]
fn declared_bindings_are_decoded_or_refused() {
    let sets = vec![vec![DeclaredBinding { binding: 2, resource_code: 4 }], vec![]];
    let decoded = decode_declared(&sets).unwrap();
    assert_eq!(decoded, vec![vec![ReflectedBinding { binding: 2, resource_type: ReflectResourceType::ShaderResourceView }], vec![]]);
    let bad = vec![vec![DeclaredBinding { binding: 0, resource_code: 9 }]];
    assert!(decode_declared(&bad).is_none());
}

#[test]
fn patched_bindings_are_decoded_or_refused() {
    let sets = vec![(4, vec![PatchedBinding { binding: 1, descriptor_code: 7, dims: vec![2, 3] }])];
    let decoded = decode_patched(&sets).unwrap();
    assert_eq!(decoded.len(), 1);
    assert_eq!(decoded[0].0, 4);
    assert_eq!(decoded[0].1[0].binding, 1);
    assert_eq!(decoded[0].1[0].descriptor_type, ReflectDescriptorType::UniformBuffer);
    assert_eq!(decoded[0].1[0].dims, vec![2, 3]);
    let bad = vec![(0, vec![PatchedBinding { binding: 0, descriptor_code: 20, dims: vec![] }])];
    assert!(decode_patched(&bad).is_none());
}

#[test]
fn moves_of_declared_bindings_are_planned() {
    let declared = vec![
        vec![DeclaredBinding { binding: 0, resource_code: 3 }, DeclaredBinding { binding: 1, resource_code: 4 }],
        vec![DeclaredBinding { binding: 0, resource_code: 5 }, DeclaredBinding { binding: 1, resource_code: 1 }],
    ];
    let moves = plan_shader_moves(&declared).unwrap();
    assert_eq!(moves.bindings.len(), 2);
    assert_eq!(moves.bindings[0][1], ReflectedBinding { binding: 1, resource_type: ReflectResourceType::ShaderResourceView });
    assert_eq!(moves.remaps.len(), 2);
    assert_eq!(moves.patches, patches_of(&moves.remaps));
    let count: usize = moves.remaps.iter().map(|r| r.len()).sum();
    assert_eq!(moves.patches.len(), count);
    assert_eq!(count, 6);
    for patch in &moves.patches {
        assert!(patch.set_position < declared.len());
        assert!((patch.binding_index as usize) < declared[patch.set_position].len());
    }
    let unknown = vec![vec![DeclaredBinding { binding: 0, resource_code: 11 }]];
    assert!(plan_shader_moves(&unknown).is_none());
    let shrinking = vec![
        vec![DeclaredBinding { binding: 0, resource_code: 4 }, DeclaredBinding { binding: 1, resource_code: 4 }],
        vec![DeclaredBinding { binding: 0, resource_code: 4 }],
    ];
    assert!(plan_shader_moves(&shrinking).is_none());
    assert!(plan_shader_moves(&vec![]).unwrap().patches.is_empty());
}

#[test]
fn layouts_come_from_the_patched_bindings() {
    let patched = vec![(2, vec![PatchedBinding { binding: 5, descriptor_code: 7, dims: vec![2, 3] }])];
    let (descriptors, layouts) = shader_layouts_of(&patched, 0x10).unwrap();
    assert_eq!(descriptors[0].0, 2);
    assert_eq!(descriptors[0].1[0].descriptor_type, ReflectDescriptorType::UniformBuffer);
    assert_eq!(layouts.len(), 1);
    assert_eq!(layouts[0].0, 2);
    assert_eq!(layouts[0].1[0].binding, 5);
    assert_eq!(layouts[0].1[0].descriptor_count, 6);
    assert_eq!(layouts[0].1[0].immutable_sampler, None);
    let unknown = vec![(0, vec![PatchedBinding { binding: 0, descriptor_code: 30, dims: vec![] }])];
    assert!(shader_layouts_of(&unknown, 0x10).is_none());
    let unsupported = vec![(0, vec![PatchedBinding { binding: 0, descriptor_code: 12, dims: vec![] }])];
    assert!(shader_layouts_of(&unsupported, 0x10).is_none());
}
