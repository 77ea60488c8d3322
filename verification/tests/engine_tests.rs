use vulkrust_play::vk::QUEUE_GRAPHICS;
use vulkrust_play::{
    check_physical_device_extension_support, Component, DeviceType, Error, Instance,
    PhysicalDevice, QueueFamily, RejectReason, Rejection, ScoringPolicy, VulkanApp, VulkanEngine,
};

fn names(list: &[&str]) -> Vec<String> {
    list.iter().map(|s| s.to_string()).collect()
}

fn adapter(name: &str, device_type: DeviceType, geometry_shader: bool, max_dim: u32) -> PhysicalDevice {
    PhysicalDevice {
        name: name.to_string(),
        device_type,
        max_image_dimension_2d: max_dim,
        geometry_shader,
        queue_families: vec![QueueFamily { queue_flags: QUEUE_GRAPHICS, present_support: Ok(true) }],
        extensions: names(&["VK_KHR_maintenance1", "VK_KHR_swapchain"]),
    }
}

fn pick(devices: &Vec<PhysicalDevice>) -> Result<usize, Error> {
    VulkanEngine::pick_suitable_device(devices, true, &VulkanEngine::required_device_prop_names())
}

#[test]
fn the_swapchain_extension_is_required() {
    assert_eq!(VulkanEngine::required_device_prop_names(), names(&["VK_KHR_swapchain"]));
}

#[test]
fn rating_adds_the_image_dimension_to_the_discrete_bonus() {
    let discrete = adapter("d", DeviceType::DiscreteGpu, true, 8192);
    assert_eq!(VulkanEngine::rate_physical_device_suitability(&discrete), 9192);
    let integrated = adapter("i", DeviceType::IntegratedGpu, true, 4096);
    assert_eq!(VulkanEngine::rate_physical_device_suitability(&integrated), 4096);
    let cpu = adapter("c", DeviceType::Cpu, true, 0);
    assert_eq!(VulkanEngine::rate_physical_device_suitability(&cpu), 0);
}

#[test]
fn rating_without_geometry_shaders_is_zero() {
    let discrete = adapter("d", DeviceType::DiscreteGpu, false, 8192);
    assert_eq!(VulkanEngine::rate_physical_device_suitability(&discrete), 0);
}

#[test]
fn rating_does_not_overflow() {
    let discrete = adapter("d", DeviceType::DiscreteGpu, true, u32::MAX);
    assert_eq!(VulkanEngine::rate_physical_device_suitability(&discrete), 4294968295);
}

#[test]
fn discrete_adapter_is_chosen_over_integrated() {
    let devices = vec![
        adapter("integrated", DeviceType::IntegratedGpu, true, 4096),
        adapter("discrete", DeviceType::DiscreteGpu, true, 8192),
    ];
    assert_eq!(pick(&devices), Ok(1));
    assert_eq!(devices[1].device_type, DeviceType::DiscreteGpu);
    assert_eq!(VulkanEngine::rate_physical_device_suitability(&devices[1]), 1000 + 8192);
}

#[test]
fn discrete_adapter_is_chosen_in_either_order() {
    let integrated = adapter("integrated", DeviceType::IntegratedGpu, true, 8192);
    let discrete = adapter("discrete", DeviceType::DiscreteGpu, true, 8192);
    assert_eq!(pick(&vec![integrated.clone(), discrete.clone()]), Ok(1));
    assert_eq!(pick(&vec![discrete, integrated]), Ok(0));
}

#[test]
fn a_much_larger_integrated_adapter_outrates_a_discrete_one() {
    let devices = vec![
        adapter("discrete", DeviceType::DiscreteGpu, true, 4096),
        adapter("integrated", DeviceType::IntegratedGpu, true, 16384),
    ];
    assert_eq!(pick(&devices), Ok(1));
}

#[test]
fn the_first_of_equal_ratings_is_kept() {
    let devices = vec![
        adapter("low", DeviceType::IntegratedGpu, true, 1024),
        adapter("a", DeviceType::DiscreteGpu, true, 4096),
        adapter("b", DeviceType::DiscreteGpu, true, 4096),
        adapter("c", DeviceType::IntegratedGpu, true, 5096),
    ];
    assert_eq!(pick(&devices), Ok(1));
}

#[test]
fn gates_come_before_ratings() {
    let mut no_swapchain = adapter("big", DeviceType::DiscreteGpu, true, 16384);
    no_swapchain.extensions = names(&["VK_KHR_maintenance1"]);
    let mut no_present = adapter("bigger", DeviceType::DiscreteGpu, true, 32768);
    no_present.queue_families[0].present_support = Ok(false);
    let devices = vec![no_swapchain, no_present, adapter("small", DeviceType::Cpu, true, 16)];
    assert_eq!(pick(&devices), Ok(2));
}

#[test]
fn no_adapters_no_choice() {
    assert_eq!(pick(&vec![]), Err(Error::NoSuitableAdapter(vec![])));
}

#[test]
fn every_rejected_adapter_is_reported_with_its_reason() {
    let mut no_graphics = adapter("a", DeviceType::DiscreteGpu, true, 4096);
    no_graphics.queue_families[0].queue_flags = 0x2;
    let mut no_swapchain = adapter("b", DeviceType::DiscreteGpu, true, 4096);
    no_swapchain.extensions = vec![];
    let no_geometry = adapter("c", DeviceType::DiscreteGpu, false, 4096);
    let zero = adapter("d", DeviceType::IntegratedGpu, true, 0);
    let mut nothing_right = adapter("e", DeviceType::Other, false, 0);
    nothing_right.queue_families = vec![];
    nothing_right.extensions = vec![];
    let devices = vec![no_graphics, no_swapchain, no_geometry, zero, nothing_right];
    assert_eq!(
        pick(&devices),
        Err(Error::NoSuitableAdapter(vec![
            Rejection { index: 0, reason: RejectReason::IncompleteQueueFamilies },
            Rejection { index: 1, reason: RejectReason::MissingExtension },
            Rejection { index: 2, reason: RejectReason::MissingGeometryShader },
            Rejection { index: 3, reason: RejectReason::ZeroScore },
            Rejection { index: 4, reason: RejectReason::IncompleteQueueFamilies },
        ]))
    );
}

#[test]
fn a_failed_query_ends_the_selection() {
    let mut broken = adapter("broken", DeviceType::IntegratedGpu, true, 4096);
    broken.queue_families[0].present_support = Err(-1000000000);
    let devices = vec![adapter("fine", DeviceType::DiscreteGpu, true, 8192), broken];
    assert_eq!(pick(&devices), Err(Error::SurfaceQuery(-1000000000)));
}

#[test]
fn without_a_surface_present_is_not_needed() {
    let mut headless = adapter("headless", DeviceType::DiscreteGpu, true, 4096);
    headless.queue_families[0].present_support = Err(-4);
    headless.extensions = vec![];
    let devices = vec![headless];
    assert_eq!(VulkanEngine::pick_suitable_device(&devices, false, &vec![]), Ok(0));
    assert_eq!(VulkanEngine::pick_suitable_device(&devices, true, &vec![]), Err(Error::SurfaceQuery(-4)));
}

#[test]
fn suitable_is_both_gates() {
    let required = names(&["VK_KHR_swapchain"]);
    let fine = adapter("fine", DeviceType::Cpu, false, 0);
    assert_eq!(VulkanEngine::is_physical_device_suitable(&fine, true, &required), Ok(true));
    let mut no_present = adapter("np", DeviceType::DiscreteGpu, true, 4096);
    no_present.queue_families[0].present_support = Ok(false);
    assert_eq!(VulkanEngine::is_physical_device_suitable(&no_present, true, &required), Ok(false));
    assert_eq!(VulkanEngine::is_physical_device_suitable(&no_present, false, &required), Ok(true));
    let mut no_ext = adapter("ne", DeviceType::DiscreteGpu, true, 4096);
    no_ext.extensions = names(&["VK_KHR_swapchain2"]);
    assert_eq!(VulkanEngine::is_physical_device_suitable(&no_ext, true, &required), Ok(false));
    let mut broken = adapter("b", DeviceType::DiscreteGpu, true, 4096);
    broken.queue_families[0].present_support = Err(-2);
    assert_eq!(
        VulkanEngine::is_physical_device_suitable(&broken, true, &required),
        Err(Error::SurfaceQuery(-2))
    );
}

#[test]
fn assessment_names_the_first_failed_gate() {
    let required = names(&["VK_KHR_swapchain"]);
    let fine = adapter("fine", DeviceType::DiscreteGpu, true, 1);
    assert_eq!(VulkanEngine::assess_physical_device(&ScoringPolicy::standard(), &fine, true, &required), Ok(None));
    let mut all_wrong = adapter("w", DeviceType::DiscreteGpu, false, 1);
    all_wrong.extensions = vec![];
    assert_eq!(
        VulkanEngine::assess_physical_device(&ScoringPolicy::standard(), &all_wrong, true, &required),
        Ok(Some(RejectReason::MissingExtension))
    );
}

#[test]
fn extension_support_is_every_required_name() {
    let available = names(&["a", "b", "c"]);
    assert!(check_physical_device_extension_support(&available, &names(&[])));
    assert!(check_physical_device_extension_support(&available, &names(&["c", "a"])));
    assert!(check_physical_device_extension_support(&available, &names(&["b", "b"])));
    assert!(!check_physical_device_extension_support(&available, &names(&["a", "d"])));
    assert!(!check_physical_device_extension_support(&names(&[]), &names(&["a"])));
    assert!(check_physical_device_extension_support(&names(&[]), &names(&[])));
    assert!(!check_physical_device_extension_support(&names(&["ab"]), &names(&["a"])));
}

#[test]
fn adapters_are_listed_by_name_in_order() {
    let devices = vec![
        adapter("llvmpipe", DeviceType::Cpu, false, 0),
        adapter("Radeon", DeviceType::DiscreteGpu, true, 16384),
    ];
    assert_eq!(Instance::physical_devices(&devices), names(&["llvmpipe", "Radeon"]));
    assert_eq!(Instance::physical_devices(&vec![]), Vec::<String>::new());
}

#[test]
fn teardown_is_the_reverse_of_bring_up() {
    let mut engine = VulkanEngine::new();
    assert!(engine.acquire(Component::Instance));
    assert!(engine.acquire(Component::DebugMessenger));
    assert!(engine.acquire(Component::Surface));
    assert!(engine.acquire(Component::LogicalDevice));
    assert!(engine.acquire(Component::SwapChain));
    assert_eq!(
        engine.teardown(),
        vec![
            Component::SwapChain,
            Component::LogicalDevice,
            Component::Surface,
            Component::DebugMessenger,
            Component::Instance,
        ]
    );
}

#[test]
fn diagnostics_are_destroyed_before_the_context() {
    let mut engine = VulkanEngine::new();
    assert!(engine.acquire(Component::Instance));
    assert!(engine.acquire(Component::DebugMessenger));
    assert_eq!(engine.teardown(), vec![Component::DebugMessenger, Component::Instance]);
    let instance = Instance::new("round trip", true, None).unwrap();
    assert_eq!(instance.destroy_order(), vec![Component::DebugMessenger, Component::Instance]);
}

#[test]
fn nothing_is_created_before_what_it_reads() {
    let mut engine = VulkanEngine::new();
    assert!(!engine.acquire(Component::DebugMessenger));
    assert!(!engine.acquire(Component::Surface));
    assert!(!engine.acquire(Component::LogicalDevice));
    assert!(!engine.acquire(Component::SwapChain));
    assert_eq!(*engine.live(), vec![]);
    assert!(engine.acquire(Component::Instance));
    assert!(engine.acquire(Component::LogicalDevice));
    assert!(!engine.acquire(Component::SwapChain));
    assert!(engine.acquire(Component::Surface));
    assert!(engine.acquire(Component::SwapChain));
    assert_eq!(
        *engine.live(),
        vec![Component::Instance, Component::LogicalDevice, Component::Surface, Component::SwapChain]
    );
}

#[test]
fn nothing_is_created_twice() {
    let mut engine = VulkanEngine::new();
    assert!(engine.acquire(Component::Instance));
    assert!(!engine.acquire(Component::Instance));
    assert!(engine.is_live(Component::Instance));
    assert!(!engine.is_live(Component::Surface));
    assert_eq!(engine.teardown(), vec![Component::Instance]);
}

#[test]
fn the_device_falls_idle_before_it_goes() {
    assert!(VulkanEngine::must_wait_idle(Component::LogicalDevice));
    assert!(!VulkanEngine::must_wait_idle(Component::SwapChain));
    assert!(!VulkanEngine::must_wait_idle(Component::Instance));
}

#[test]
fn the_standard_policy_has_the_standard_weights() {
    assert_eq!(
        ScoringPolicy::standard(),
        ScoringPolicy { discrete_bonus: 1000, require_geometry_shader: true }
    );
}

#[test]
fn another_policy_rates_otherwise() {
    let generous = ScoringPolicy { discrete_bonus: 100000, require_geometry_shader: false };
    let discrete = adapter("d", DeviceType::DiscreteGpu, false, 4096);
    let integrated = adapter("i", DeviceType::IntegratedGpu, true, 16384);
    assert_eq!(generous.rate(&discrete), 104096);
    assert_eq!(generous.rate(&integrated), 16384);
    assert_eq!(ScoringPolicy::standard().rate(&discrete), 0);
    let devices = vec![integrated, discrete];
    let required = names(&["VK_KHR_swapchain"]);
    assert_eq!(VulkanEngine::pick_suitable_device_with(&generous, &devices, true, &required), Ok(1));
    assert_eq!(VulkanEngine::pick_suitable_device(&devices, true, &required), Ok(0));
}

#[test]
fn the_gates_hold_under_every_policy() {
    let generous = ScoringPolicy { discrete_bonus: 100000, require_geometry_shader: false };
    let mut no_swapchain = adapter("a", DeviceType::DiscreteGpu, true, 4096);
    no_swapchain.extensions = vec![];
    let mut no_present = adapter("b", DeviceType::DiscreteGpu, true, 4096);
    no_present.queue_families[0].present_support = Ok(false);
    let devices = vec![no_swapchain, no_present];
    let required = names(&["VK_KHR_swapchain"]);
    assert_eq!(
        VulkanEngine::pick_suitable_device_with(&generous, &devices, true, &required),
        Err(Error::NoSuitableAdapter(vec![
            Rejection { index: 0, reason: RejectReason::MissingExtension },
            Rejection { index: 1, reason: RejectReason::IncompleteQueueFamilies },
        ]))
    );
}

#[test]
fn the_listing_pairs_each_adapter_with_its_index() {
    let app = VulkanApp::new("Vulkan Play", true).unwrap();
    assert_eq!(app.instance, Instance::new("Vulkan Play", true, None).unwrap());
    let devices = vec![
        adapter("llvmpipe", DeviceType::Cpu, false, 0),
        adapter("Radeon", DeviceType::DiscreteGpu, true, 16384),
        adapter("llvmpipe", DeviceType::Cpu, false, 0),
    ];
    assert_eq!(
        app.list_physical_devices(&devices),
        vec![(0, "llvmpipe".to_string()), (1, "Radeon".to_string()), (2, "llvmpipe".to_string())]
    );
    assert_eq!(app.list_physical_devices(&vec![]), vec![]);
}

#[test]
fn the_listing_application_refuses_a_bad_name() {
    assert_eq!(VulkanApp::new("a\0", true), Err(Error::InvalidName));
}
