use vulkrust_play::surface::EXTENT_FROM_WINDOW;
use vulkrust_play::{
    ChainAction, ChainEvent, ChainState, Component, Extent2D, PresentMode, SurfaceCapabilities,
    SurfaceCapabilitiesKHR, SurfaceFormat, TeardownStep, VulkanEngine,
};

#[test]
fn bring_up_with_everything() {
    assert_eq!(
        VulkanEngine::bring_up_order(true, true),
        vec![
            Component::Instance,
            Component::DebugMessenger,
            Component::Surface,
            Component::LogicalDevice,
            Component::SwapChain,
        ]
    );
}

#[test]
fn bring_up_without_validation_or_window() {
    assert_eq!(
        VulkanEngine::bring_up_order(false, true),
        vec![Component::Instance, Component::Surface, Component::LogicalDevice, Component::SwapChain]
    );
    assert_eq!(
        VulkanEngine::bring_up_order(true, false),
        vec![Component::Instance, Component::DebugMessenger, Component::LogicalDevice]
    );
    assert_eq!(VulkanEngine::bring_up_order(false, false), vec![Component::Instance, Component::LogicalDevice]);
}

#[test]
fn bring_up_order_can_be_followed() {
    for validation in [false, true] {
        for surface in [false, true] {
            let order = VulkanEngine::bring_up_order(validation, surface);
            let mut engine = VulkanEngine::new();
            for component in order.iter() {
                assert!(engine.acquire(*component));
            }
            let mut backwards = order.clone();
            backwards.reverse();
            assert_eq!(engine.teardown(), backwards);
        }
    }
}

#[test]
fn first_frame_builds_the_swapchain() {
    assert_eq!(
        ChainState::Unbuilt.step(ChainEvent::FrameRequested),
        (ChainState::Rebuilding(None), ChainAction::Build(None))
    );
    assert_eq!(
        ChainState::Rebuilding(None).step(ChainEvent::Created(7)),
        (ChainState::Built(7), ChainAction::Nothing)
    );
}

#[test]
fn resize_makes_the_swapchain_stale_and_the_next_frame_rebuilds_it() {
    assert_eq!(ChainState::Built(7).step(ChainEvent::Resized), (ChainState::Stale(7), ChainAction::Nothing));
    assert_eq!(
        ChainState::Stale(7).step(ChainEvent::FrameRequested),
        (ChainState::Rebuilding(Some(7)), ChainAction::Build(Some(7)))
    );
    assert_eq!(
        ChainState::Rebuilding(Some(7)).step(ChainEvent::Created(8)),
        (ChainState::Built(8), ChainAction::Retire(7))
    );
}

#[test]
fn failed_creation_leaves_things_as_they_were() {
    assert_eq!(
        ChainState::Rebuilding(Some(7)).step(ChainEvent::CreationFailed),
        (ChainState::Stale(7), ChainAction::Nothing)
    );
    assert_eq!(
        ChainState::Rebuilding(None).step(ChainEvent::CreationFailed),
        (ChainState::Unbuilt, ChainAction::Nothing)
    );
}

#[test]
fn other_events_change_nothing() {
    let cases = [
        (ChainState::Unbuilt, ChainEvent::Resized),
        (ChainState::Unbuilt, ChainEvent::Created(1)),
        (ChainState::Unbuilt, ChainEvent::CreationFailed),
        (ChainState::Built(3), ChainEvent::FrameRequested),
        (ChainState::Built(3), ChainEvent::Created(4)),
        (ChainState::Built(3), ChainEvent::CreationFailed),
        (ChainState::Stale(3), ChainEvent::Resized),
        (ChainState::Stale(3), ChainEvent::Created(4)),
        (ChainState::Stale(3), ChainEvent::CreationFailed),
        (ChainState::Rebuilding(Some(3)), ChainEvent::Resized),
        (ChainState::Rebuilding(None), ChainEvent::FrameRequested),
    ];
    for (state, event) in cases {
        assert_eq!(state.step(event), (state, ChainAction::Nothing));
    }
}

#[test]
fn capabilities_are_put_together_as_given() {
    let limits = SurfaceCapabilitiesKHR {
        min_image_count: 1,
        max_image_count: 4,
        current_extent: Extent2D { width: EXTENT_FROM_WINDOW, height: EXTENT_FROM_WINDOW },
        min_image_extent: Extent2D { width: 1, height: 1 },
        max_image_extent: Extent2D { width: 4096, height: 4096 },
        current_transform: 1,
    };
    let formats = vec![SurfaceFormat { format: 50, color_space: 0 }];
    let modes = vec![PresentMode::Fifo];
    let caps = SurfaceCapabilities::new(limits, formats.clone(), modes.clone());
    assert_eq!(caps.capabilities, limits);
    assert_eq!(caps.physical_device_surface_formats, formats);
    assert_eq!(caps.physical_device_surface_present_modes, modes);
    assert!(caps.is_adequate());
}

#[test]
fn the_device_is_waited_for_just_before_it_goes() {
    let mut engine = VulkanEngine::new();
    for component in VulkanEngine::bring_up_order(true, true) {
        assert!(engine.acquire(component));
    }
    assert_eq!(
        engine.teardown_plan(),
        vec![
            TeardownStep::Destroy(Component::SwapChain),
            TeardownStep::WaitDeviceIdle,
            TeardownStep::Destroy(Component::LogicalDevice),
            TeardownStep::Destroy(Component::Surface),
            TeardownStep::Destroy(Component::DebugMessenger),
            TeardownStep::Destroy(Component::Instance),
        ]
    );
}

#[test]
fn teardown_of_nothing_has_no_steps() {
    assert_eq!(VulkanEngine::new().teardown_plan(), vec![]);
    assert_eq!(VulkanEngine::new().teardown(), vec![]);
}

#[test]
fn teardown_without_a_device_waits_for_nothing() {
    let mut engine = VulkanEngine::new();
    assert!(engine.acquire(Component::Instance));
    assert!(engine.acquire(Component::Surface));
    assert_eq!(
        engine.teardown_plan(),
        vec![TeardownStep::Destroy(Component::Surface), TeardownStep::Destroy(Component::Instance)]
    );
}
