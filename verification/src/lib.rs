//! Decision logic for bringing up a Vulkan rendering context.
//!
//! Every choice made while an instance, a device and a swapchain are set up
//! lives here as a function from plain values to plain values: which queue
//! families serve which role, which adapter wins, which surface format,
//! present mode, extent and image count are used, what a creation request
//! holds, and in which order objects are torn down. The native calls
//! themselves are made by the program that links this library.

pub mod app;
pub mod engine;
pub mod error;
pub mod instance;
pub mod lifecycle;
pub mod logical_device;
pub mod physical_device;
pub mod surface;
pub mod swap_chain;
pub mod utils;
pub mod vk;

pub use app::VulkanApp;
pub use engine::VulkanEngine;
pub use error::{Error, NativeCall, RejectReason, Rejection};
pub use instance::{DebugState, Instance};
pub use lifecycle::{Component, TeardownStep};
pub use logical_device::{
    find_queue_families, DeviceFeatures, LogicalDevice, QueueFamily, QueueFamilyIndices,
    QueueRequest,
};
pub use physical_device::{
    check_physical_device_extension_support, DeviceType, PhysicalDevice, ScoringPolicy,
};
pub use swap_chain::{ChainAction, ChainEvent, ChainState, SharingMode, SwapChain};
pub use utils::vk_str_to_string;
pub use surface::{Extent2D, PresentMode, SurfaceCapabilities, SurfaceCapabilitiesKHR, SurfaceFormat};
