use vulkrust_play::vk::{
    MESSAGE_GENERAL, MESSAGE_PERFORMANCE, MESSAGE_VALIDATION, SEVERITY_ERROR, SEVERITY_INFO,
    SEVERITY_VERBOSE, SEVERITY_WARNING,
};
use vulkrust_play::{Component, DebugState, Error, Instance, NativeCall};

#[test]
fn validation_switches_on_layer_extension_and_sink() {
    let instance = Instance::new("List Devices", true, None).unwrap();
    assert_eq!(instance.application_name, "List Devices");
    assert_eq!(instance.engine_name, "Dan's on Vulkan Engine");
    assert_eq!(instance.enabled_layers, vec!["VK_LAYER_KHRONOS_validation".to_string()]);
    assert_eq!(instance.enabled_extensions, vec!["VK_EXT_debug_utils".to_string()]);
    assert_eq!(instance.debug, Some(DebugState { message_severity: 0x1110, message_type: 0x7 }));
}

#[test]
fn api_version_is_one_point_three() {
    let instance = Instance::new("v", false, None).unwrap();
    assert_eq!(instance.api_version, (1 << 22) | (3 << 12));
    assert_eq!(instance.api_version, 4206592);
}

#[test]
fn without_validation_nothing_is_added() {
    let instance = Instance::new("quiet", false, None).unwrap();
    assert_eq!(instance.enabled_layers, Vec::<String>::new());
    assert_eq!(instance.enabled_extensions, Vec::<String>::new());
    assert_eq!(instance.debug, None);
    assert_eq!(instance.destroy_order(), vec![Component::Instance]);
}

#[test]
fn window_extensions_follow_the_debug_extension() {
    let wsi = vec!["VK_KHR_surface".to_string(), "VK_KHR_xcb_surface".to_string()];
    let instance = Instance::new("Window App", true, Some(&wsi)).unwrap();
    assert_eq!(
        instance.enabled_extensions,
        vec![
            "VK_EXT_debug_utils".to_string(),
            "VK_KHR_surface".to_string(),
            "VK_KHR_xcb_surface".to_string(),
        ]
    );
    let instance = Instance::new("Window App", false, Some(&wsi)).unwrap();
    assert_eq!(instance.enabled_extensions, wsi);
    assert_eq!(instance.enabled_layers, Vec::<String>::new());
}

#[test]
fn validation_does_not_change_what_else_is_chosen() {
    let wsi = vec!["VK_KHR_surface".to_string()];
    let with = Instance::new("same", true, Some(&wsi)).unwrap();
    let without = Instance::new("same", false, Some(&wsi)).unwrap();
    assert_eq!(with.application_name, without.application_name);
    assert_eq!(with.engine_name, without.engine_name);
    assert_eq!(with.api_version, without.api_version);
    assert_eq!(with.enabled_extensions[1..], without.enabled_extensions[..]);
}

#[test]
fn a_name_with_a_zero_byte_is_refused() {
    assert_eq!(Instance::new("a\0b", true, None), Err(Error::InvalidName));
    assert_eq!(Instance::new("\0", false, None), Err(Error::InvalidName));
    let bad = vec!["VK_KHR_surface".to_string(), "VK_KHR\0surface".to_string()];
    assert_eq!(Instance::new("fine", true, Some(&bad)), Err(Error::InvalidName));
    assert!(Instance::new("", false, None).is_ok());
    assert!(Instance::new("caf\u{e9} \u{1f600}", false, None).is_ok());
}

#[test]
fn the_sink_takes_warnings_errors_and_information() {
    let sink = Instance::new("s", true, None).unwrap().debug.unwrap();
    assert_eq!(sink.message_severity, SEVERITY_WARNING | SEVERITY_ERROR | SEVERITY_INFO);
    assert_eq!(sink.message_severity & SEVERITY_VERBOSE, 0);
    assert_eq!(sink.message_type, MESSAGE_GENERAL | MESSAGE_VALIDATION | MESSAGE_PERFORMANCE);
    let errors_only = DebugState::new(SEVERITY_ERROR, MESSAGE_VALIDATION);
    assert_eq!(errors_only, DebugState { message_severity: 0x1000, message_type: 0x2 });
}

#[test]
fn native_failures_become_the_error_of_their_component() {
    assert_eq!(Error::from_native(NativeCall::LoadDriver, -9), Error::ContextCreation(-9));
    assert_eq!(Error::from_native(NativeCall::CreateInstance, -6), Error::ContextCreation(-6));
    assert_eq!(Error::from_native(NativeCall::CreateDebugMessenger, -1), Error::ContextCreation(-1));
    assert_eq!(Error::from_native(NativeCall::EnumerateAdapters, -3), Error::AdapterEnumeration(-3));
    assert_eq!(Error::from_native(NativeCall::CreateSurface, -1000000001), Error::SurfaceCreation(-1000000001));
    assert_eq!(Error::from_native(NativeCall::QuerySurface, -1000000000), Error::SurfaceQuery(-1000000000));
    assert_eq!(Error::from_native(NativeCall::CreateDevice, -7), Error::DeviceCreation(-7));
    assert_eq!(Error::from_native(NativeCall::CreateSwapchain, -1000000001), Error::ChainCreation(-1000000001));
}

#[test]
fn recoverable_errors() {
    assert!(Error::IncompleteQueueFamilies.is_recoverable());
    assert!(Error::SurfaceCreation(-1).is_recoverable());
    assert!(Error::ChainCreation(-1).is_recoverable());
    assert!(Error::InadequateSurface.is_recoverable());
    assert!(!Error::ContextCreation(-1).is_recoverable());
    assert!(!Error::NoSuitableAdapter(vec![]).is_recoverable());
    assert!(!Error::DeviceCreation(-1).is_recoverable());
    assert!(!Error::InvalidName.is_recoverable());
    assert!(!Error::AdapterEnumeration(-1).is_recoverable());
    assert!(!Error::SurfaceQuery(-1).is_recoverable());
}
