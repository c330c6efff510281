use render_hal_vk::backend::backend_instance_config;
use render_hal_vk::backend::device_type;
use render_hal_vk::backend::BackendError;
use render_hal_vk::backend::Layer;
use render_hal_vk::backend::PhysicalDeviceProperties;
use render_hal_vk::backend::RenderBackendModuleVk;
use render_hal_vk::backend::RenderBackendVk;
use render_hal_vk::backend::RenderDeviceType;
use render_hal_vk::capability::Capability;
use render_hal_vk::command::FamilyId;
use render_hal_vk::device::assign_queues;
use render_hal_vk::device::create_pool_outcome;
use render_hal_vk::device::extensions_available;
use render_hal_vk::device::family_ids;
use render_hal_vk::device::family_properties;
use render_hal_vk::device::family_queue_ids;
use render_hal_vk::device::find_family;
use render_hal_vk::device::get_list_queue_type;
use render_hal_vk::device::max_queues;
use render_hal_vk::device::select_queue_families;
use render_hal_vk::device::swap_chain_enabled;
use render_hal_vk::device::CreateQueueFamily;
use render_hal_vk::device::DeviceTrackerSlot;
use render_hal_vk::device::RenderCommandListType;
use render_hal_vk::device::RenderQueueType;
use render_hal_vk::errors::DeviceError;
use render_hal_vk::errors::InstanceError;
use render_hal_vk::errors::OomError;
use render_hal_vk::errors::SurfaceError;
use render_hal_vk::errors::VkInstanceError;
use render_hal_vk::errors::VkLoadingError;
use render_hal_vk::instance::instance_plan;
use render_hal_vk::instance::make_version;
use render_hal_vk::instance::surface_enabled;
use render_hal_vk::instance::surface_extension_names;
use render_hal_vk::surface::surface_formats_outcome;
use render_hal_vk::surface::surface_support_outcome;
use render_hal_vk::surface::swap_chain_extension_names;
use render_hal_vk::vulkan;

fn names(list: &[&str]) -> Vec<String> {
    list.iter().map(|s| s.to_string()).collect()
}

fn adapter(name: &str, device_type: i32) -> PhysicalDeviceProperties {
    PhysicalDeviceProperties { device_name: name.to_string(), vendor_id: 1, device_id: 2, device_type }
}

#[test]
fn families_are_numbered_and_classified() {
    let families = family_properties(&vec![
        (vulkan::QUEUE_GRAPHICS | vulkan::QUEUE_COMPUTE | vulkan::QUEUE_TRANSFER, 16),
        (vulkan::QUEUE_COMPUTE | vulkan::QUEUE_TRANSFER, 8),
        (vulkan::QUEUE_TRANSFER, 2),
    ]);
    assert_eq!(families.len(), 3);
    assert_eq!((families[0].index, families[0].capability, families[0].queue_count), (0, Capability::General, 16));
    assert_eq!(families[1].capability, Capability::Compute);
    assert_eq!(families[2].capability, Capability::Transfer);
}

#[test]
fn queue_families_are_selected_per_type() {
    let families = family_properties(&vec![
        (vulkan::QUEUE_GRAPHICS | vulkan::QUEUE_COMPUTE | vulkan::QUEUE_TRANSFER, 16),
        (vulkan::QUEUE_TRANSFER, 2),
    ]);
    assert_eq!(find_family(&families, RenderQueueType::Universal), Some(CreateQueueFamily { family: 0, count: 1 }));
    assert_eq!(find_family(&families, RenderQueueType::Compute), None);
    assert_eq!(find_family(&families, RenderQueueType::Transfer), Some(CreateQueueFamily { family: 1, count: 1 }));
    let selection = select_queue_families(&families);
    assert_eq!(selection.families, vec![CreateQueueFamily { family: 0, count: 1 }, CreateQueueFamily { family: 1, count: 1 }]);
    assert_eq!(selection.queue_info[1], CreateQueueFamily::default());
    assert_eq!(max_queues(&selection.families), 1);
    assert_eq!(max_queues(&vec![]), 0);
    assert_eq!(max_queues(&vec![CreateQueueFamily { family: 0, count: 3 }, CreateQueueFamily { family: 1, count: 5 }]), 5);
}

#[test]
fn family_and_queue_ids_follow_requests() {
    let families = family_properties(&vec![(vulkan::QUEUE_GRAPHICS, 1), (vulkan::QUEUE_COMPUTE, 4)]);
    let ids = family_ids(&vec![CreateQueueFamily { family: 1, count: 2 }], &families);
    assert_eq!(ids.len(), 1);
    assert_eq!((ids[0].index, ids[0].capability), (1, Capability::Compute));
    let queues = family_queue_ids(FamilyId { index: 1, capability: Capability::Compute }, 3);
    assert_eq!(queues.iter().map(|q| q.index).collect::<Vec<u32>>(), vec![0, 1, 2]);
    assert!(queues.iter().all(|q| q.family.index == 1));
}

#[test]
fn queues_are_filed_by_type_last_one_wins() {
    let r = assign_queues(&vec![(Capability::General, 1), (Capability::Transfer, 2), (Capability::Graphics, 3)]);
    assert_eq!(r, vec![Some(3), None, Some(2)]);
    assert_eq!(get_list_queue_type(RenderCommandListType::Present), RenderQueueType::Universal);
    assert_eq!(get_list_queue_type(RenderCommandListType::Compute), RenderQueueType::Compute);
    assert_eq!(get_list_queue_type(RenderCommandListType::Transfer), RenderQueueType::Transfer);
}

#[test]
fn extension_checks() {
    let available = names(&["VK_KHR_swapchain", "VK_KHR_maintenance1"]);
    assert!(extensions_available(&names(&["VK_KHR_swapchain"]), &available));
    assert!(!extensions_available(&names(&["VK_KHR_swapchain", "VK_X"]), &available));
    assert!(swap_chain_enabled(&available, &"VK_KHR_swapchain".to_string()));
    assert!(!swap_chain_enabled(&names(&[]), &"VK_KHR_swapchain".to_string()));
    assert_eq!(swap_chain_extension_names()[0], "VK_KHR_swapchain");
    assert_eq!(swap_chain_extension_names().len(), 4);
}

#[test]
fn pool_creation_and_error_codes() {
    assert_eq!(create_pool_outcome(vulkan::RESULT_SUCCESS, 9), Ok(9));
    assert_eq!(create_pool_outcome(vulkan::RESULT_ERROR_OUT_OF_HOST_MEMORY, 9), Err(OomError::OutOfHostMemory));
    assert_eq!(create_pool_outcome(vulkan::RESULT_ERROR_OUT_OF_DEVICE_MEMORY, 9), Err(OomError::OutOfDeviceMemory));
    assert!(matches!(InstanceError::from_vk_result(vulkan::RESULT_ERROR_LAYER_NOT_PRESENT), InstanceError::LayerNotPresent));
    assert!(matches!(InstanceError::from_vk_result(vulkan::RESULT_ERROR_INCOMPATIBLE_DRIVER), InstanceError::IncompatibleDriver));
    assert!(matches!(InstanceError::from_vk_result(vulkan::RESULT_ERROR_INITIALIZATION_FAILED), InstanceError::InitializationFailed));
    assert!(matches!(InstanceError::from_vk_result(vulkan::RESULT_ERROR_EXTENSION_NOT_PRESENT), InstanceError::ExtensionNotPresent));
    assert!(matches!(InstanceError::from_vk_result(vulkan::RESULT_ERROR_OUT_OF_HOST_MEMORY), InstanceError::OomError(OomError::OutOfHostMemory)));
    assert!(matches!(
        InstanceError::from_loading_error(VkLoadingError::LibraryLoadError("libvulkan".to_string())),
        InstanceError::LibraryLoadError(ref n) if n == "libvulkan"
    ));
    assert!(matches!(
        InstanceError::from_instance_error(VkInstanceError::LoadError(vec!["vkCreateInstance"])),
        InstanceError::LoadError(ref v) if v.len() == 1
    ));
    assert!(matches!(DeviceError::from_vk_result(vulkan::RESULT_ERROR_DEVICE_LOST), DeviceError::DeviceLost(_)));
    assert!(matches!(DeviceError::from_vk_result(vulkan::RESULT_ERROR_FEATURE_NOT_PRESENT), DeviceError::FeatureNotPresent));
    assert!(matches!(DeviceError::from_vk_result(vulkan::RESULT_ERROR_TOO_MANY_OBJECTS), DeviceError::TooManyObjects));
    assert!(matches!(
        DeviceError::from_device_error(VkInstanceError::VkError(vulkan::RESULT_ERROR_OUT_OF_DEVICE_MEMORY)),
        DeviceError::OomError(OomError::OutOfDeviceMemory)
    ));
    assert!(matches!(SurfaceError::from_vk_result(vulkan::RESULT_ERROR_SURFACE_LOST_KHR), SurfaceError::SurfaceLost(_)));
    assert!(matches!(SurfaceError::from_vk_result(vulkan::RESULT_ERROR_NATIVE_WINDOW_IN_USE_KHR), SurfaceError::WindowInUse));
}

#[test]
fn surface_answers() {
    assert!(matches!(surface_support_outcome(vulkan::RESULT_SUCCESS, 1), Ok(true)));
    assert!(matches!(surface_support_outcome(vulkan::RESULT_SUCCESS, 0), Ok(false)));
    assert!(matches!(surface_support_outcome(vulkan::RESULT_ERROR_SURFACE_LOST_KHR, 1), Err(SurfaceError::SurfaceLost(_))));
    assert!(matches!(surface_formats_outcome(vulkan::RESULT_SUCCESS, vulkan::RESULT_SUCCESS, vec![44]), Ok(ref f) if f == &vec![44]));
    assert!(matches!(
        surface_formats_outcome(vulkan::RESULT_SUCCESS, vulkan::RESULT_ERROR_DEVICE_LOST, vec![]),
        Err(SurfaceError::DeviceLost(_))
    ));
    assert!(matches!(
        surface_formats_outcome(vulkan::RESULT_ERROR_OUT_OF_HOST_MEMORY, vulkan::RESULT_SUCCESS, vec![]),
        Err(SurfaceError::OomError(OomError::OutOfHostMemory))
    ));
}

#[test]
fn versions_and_instance_plan() {
    assert_eq!(make_version(1, 0, 36), (1 << 22) | 36);
    assert_eq!(make_version(1, 2, 3), 4_202_499);
    let surfaces = surface_extension_names();
    assert_eq!(surfaces, names(&["VK_KHR_surface", "VK_KHR_xlib_surface"]));
    let layers = vec![Layer { name: "VK_LAYER_test", spec_version: 1, implementation_version: 1, description: "" }];
    let offered = names(&["VK_KHR_surface", "VK_KHR_xlib_surface", "VK_EXT_debug_report"]);
    let config = backend_instance_config(&layers, &offered, &surfaces);
    assert_eq!(config.app_name, "render-hal-vk");
    assert_eq!(config.layers, names(&["VK_LAYER_test"]));
    assert_eq!(config.extensions, names(&["VK_KHR_surface", "VK_KHR_xlib_surface", "VK_EXT_debug_report"]));
    assert!(surface_enabled(&config.extensions, &surfaces));
    assert!(!surface_enabled(&names(&["VK_KHR_surface"]), &surfaces));
    let plan = instance_plan(config, &surfaces);
    assert!(plan.surface_enabled);
    assert_eq!(plan.api_version, make_version(1, 0, 36));
    assert_eq!(plan.layers, names(&["VK_LAYER_LUNARG_standard_validation"]));
}

#[test]
fn backend_module_names() {
    let module = RenderBackendModuleVk::new();
    assert_eq!(module.name(), "Vulkan");
    assert_eq!(module.api(), "vk");
    assert_eq!(device_type(2), RenderDeviceType::Discrete);
    assert_eq!(device_type(1), RenderDeviceType::Integrated);
    assert_eq!(device_type(0), RenderDeviceType::Other);
}

#[test]
fn backend_without_devices_fails() {
    let mut backend = RenderBackendVk::new();
    assert!(backend.needs_adapters());
    assert!(matches!(backend.enumerate_devices(vec![], 0), Err(BackendError::NoPhysicalDevices)));
    assert!(backend.device_info.is_empty() && backend.devices.is_empty() && backend.device_map.len() == 0);
    assert!(matches!(backend.enumerate_devices(vec![], 1), Err(BackendError::NoPhysicalDevices)));
    let infos = backend.enumerate_devices(vec![adapter("late", 2)], 0).unwrap();
    assert_eq!(infos.len(), 1);
    assert_eq!(infos[0].name, "late");
}

#[test]
fn backend_enumerates_mirrors_and_tracks_devices() {
    let mut backend = RenderBackendVk::new();
    let infos = backend.enumerate_devices(vec![adapter("gpu0", 2), adapter("gpu1", 1)], 2).unwrap();
    assert_eq!(infos.len(), 2);
    assert_eq!(infos[1].name, "gpu1");
    assert_eq!(infos[1].device_index, 1);
    assert_eq!(backend.device_map.len(), 6);
    assert_eq!(backend.device_map.get(5), Some(1));
    assert_eq!(backend.device_map.get(4), Some(0));
    assert_eq!(backend.get_device(0), Ok(false));
    assert_eq!(backend.create_device(0), Ok(()));
    assert_eq!(backend.get_device(0), Ok(true));
    assert_eq!(backend.get_device(1), Ok(false));
    assert_eq!(backend.destroy_device(0), Ok(()));
    assert_eq!(backend.get_device(0), Ok(false));
    assert_eq!(backend.create_device(7), Err(BackendError::NoDeviceFound(7)));
    assert_eq!(backend.device_slot(1), Ok(1));
    assert_eq!(backend.device_slot(2), Err(BackendError::NoDeviceFound(2)));
    let again = backend.enumerate_devices(vec![adapter("other", 3)], 2).unwrap();
    assert_eq!(again.len(), infos.len());
    for (a, b) in again.iter().zip(infos.iter()) {
        assert_eq!((&a.name, a.device_index, a.vendor_id, a.device_id), (&b.name, b.device_index, b.vendor_id, b.device_id));
    }
    assert_eq!(backend.device_map.len(), 6);
    assert_eq!(backend.device_map.get(5), Some(1));
}

#[test]
fn tracker_slot_is_taken_and_returned() {
    let mut slot = DeviceTrackerSlot::new(4);
    assert!(slot.cleanup());
    assert_eq!(slot.take_tracker(), Some(4));
    assert!(!slot.cleanup());
    assert_eq!(slot.take_tracker(), None);
    slot.return_tracker(4);
    assert!(slot.cleanup());
}
