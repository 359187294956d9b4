use dylink::error::DylinkError;
use dylink::error::ErrorKind;
use dylink::lazyfn::LazyFn;
use dylink::lazyfn::LinkType;
use dylink::vulkan::bootstrap_device_proc_addr;
use dylink::vulkan::first_hit;
use dylink::vulkan::vulkan_library_names;
use dylink::vulkan::vulkan_route;
use dylink::vulkan::Platform;
use dylink::vulkan::VkDevice;
use dylink::vulkan::VkInstance;
use dylink::vulkan::VkPhase;
use dylink::vulkan::VkRoute;
use dylink::vulkan::VulkanResolution;
use dylink::Global;

#[test]
fn routes_of_the_discovery_entry_points() {
    assert_eq!(
        vulkan_route(&"vkGetInstanceProcAddr".to_string()),
        VkRoute::InstanceProcAddr
    );
    assert_eq!(
        vulkan_route(&"vkGetDeviceProcAddr".to_string()),
        VkRoute::DeviceProcAddr
    );
    assert_eq!(
        vulkan_route(&"vkCreateInstance".to_string()),
        VkRoute::Discovery
    );
}

#[test]
fn first_hit_takes_the_first_nonzero() {
    assert_eq!(first_hit(&vec![]), None);
    assert_eq!(first_hit(&vec![0, 0, 0]), None);
    assert_eq!(first_hit(&vec![0, 0x30, 0x40]), Some(0x30));
    assert_eq!(first_hit(&vec![0x10, 0x20]), Some(0x10));
}

#[test]
fn bootstrap_with_one_registered_instance() {
    // One instance is registered and answers; resolving again through a lazy
    // cell returns the same address without re-traversing the registry.
    let mut registry = Global::new();
    assert!(registry.insert_instance(VkInstance { handle: 0x100 }));

    let answers: Vec<usize> = registry.instances.iter().map(|_| 0xa000).collect();
    let addr = bootstrap_device_proc_addr(&answers).unwrap();
    assert_ne!(addr, 0);
    assert_eq!(addr, 0xa000);

    let mut cell = LazyFn::new(0, "vkGetDeviceProcAddr".to_string(), LinkType::Vulkan);
    assert_eq!(cell.load(Ok(addr)).unwrap(), 0xa000);
    assert_eq!(cell.try_link().unwrap().unwrap(), 0xa000);
}

#[test]
fn bootstrap_with_empty_registry_is_symbol_not_found() {
    let answers: Vec<usize> = Vec::new();
    let err = bootstrap_device_proc_addr(&answers).unwrap_err();
    assert_eq!(err.kind(), ErrorKind::SymbolNotFound);
    match err {
        DylinkError::SymbolNotFound { symbol } => {
            assert_eq!(symbol, "vkGetDeviceProcAddr")
        }
        other => panic!("unexpected error: {:?}", other),
    }
}

#[test]
fn discovery_protocol_phases_in_order() {
    // Devices first, instances second, the null instance last; a miss
    // everywhere is SymbolNotFound.
    let mut res = VulkanResolution::begin("vkQueueSubmit".to_string());
    assert!(matches!(res.phase, VkPhase::Devices));
    assert!(res.finished().is_none());
    res.devices_scanned(None);
    assert!(matches!(res.phase, VkPhase::Instances));
    res.instances_scanned(None);
    assert!(matches!(res.phase, VkPhase::NullInstance));
    res.null_instance_result(0);
    let err = res.finished().unwrap().unwrap_err();
    assert_eq!(err.kind(), ErrorKind::SymbolNotFound);
    match err {
        DylinkError::SymbolNotFound { symbol } => assert_eq!(symbol, "vkQueueSubmit"),
        other => panic!("unexpected error: {:?}", other),
    }
}

#[test]
fn discovery_device_hit_decides_early() {
    let mut res = VulkanResolution::begin("vkQueueSubmit".to_string());
    res.devices_scanned(Some(0xb000));
    assert_eq!(res.finished().unwrap().unwrap(), 0xb000);
}

#[test]
fn discovery_instance_hit_decides() {
    let mut res = VulkanResolution::begin("vkCreateDevice".to_string());
    res.devices_scanned(None);
    res.instances_scanned(Some(0xc000));
    assert_eq!(res.finished().unwrap().unwrap(), 0xc000);
}

#[test]
fn discovery_null_instance_answers_global_entry_points() {
    let mut res = VulkanResolution::begin("vkCreateInstance".to_string());
    res.devices_scanned(None);
    res.instances_scanned(None);
    res.null_instance_result(0xd000);
    assert_eq!(res.finished().unwrap().unwrap(), 0xd000);
}

#[test]
fn registry_insert_and_remove() {
    let mut registry = Global::new();
    let inst = VkInstance { handle: 0x100 };
    let dev = VkDevice { handle: 0x200 };

    assert!(registry.insert_instance(inst));
    assert!(!registry.insert_instance(inst));
    assert!(registry.insert_device(dev));
    assert!(!registry.insert_device(dev));
    assert_eq!(registry.instances.len(), 1);
    assert_eq!(registry.devices.len(), 1);

    assert!(registry.remove_instance(&inst));
    assert!(!registry.remove_instance(&inst));
    assert!(registry.remove_device(&dev));
    assert!(!registry.remove_device(&dev));
    assert!(registry.instances.is_empty());
    assert!(registry.devices.is_empty());
}

#[test]
fn registry_remove_keeps_other_elements() {
    let mut registry = Global::new();
    for h in [1usize, 2, 3] {
        assert!(registry.insert_instance(VkInstance { handle: h }));
    }
    assert!(registry.remove_instance(&VkInstance { handle: 2 }));
    let left: Vec<usize> = registry.instances.iter().map(|i| i.handle).collect();
    assert_eq!(left, vec![1, 3]);
}

#[test]
fn platform_vulkan_candidates() {
    assert_eq!(vulkan_library_names(Platform::Windows), vec!["vulkan-1.dll"]);
    assert_eq!(
        vulkan_library_names(Platform::Linux),
        vec!["libvulkan.so.1", "libvulkan.so"]
    );
    assert_eq!(
        vulkan_library_names(Platform::MacOs),
        vec!["libvulkan.dylib", "libvulkan.1.dylib", "libMoltenVK.dylib"]
    );
}
