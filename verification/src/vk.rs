use vstd::prelude::*;

verus! {

/// Bit of a queue family's flags that says it takes graphics commands.
pub const QUEUE_GRAPHICS: u32 = 0x1;

/// Severity of a driver message: verbose.
pub const SEVERITY_VERBOSE: u32 = 0x1;

/// Severity of a driver message: information.
pub const SEVERITY_INFO: u32 = 0x10;

/// Severity of a driver message: warning.
pub const SEVERITY_WARNING: u32 = 0x100;

/// Severity of a driver message: error.
pub const SEVERITY_ERROR: u32 = 0x1000;

/// Type of a driver message: general.
pub const MESSAGE_GENERAL: u32 = 0x1;

/// Type of a driver message: validation.
pub const MESSAGE_VALIDATION: u32 = 0x2;

/// Type of a driver message: performance.
pub const MESSAGE_PERFORMANCE: u32 = 0x4;

/// Image usage: colour attachment.
pub const IMAGE_USAGE_COLOR_ATTACHMENT: u32 = 0x10;

/// Composite alpha: the window is opaque.
pub const COMPOSITE_ALPHA_OPAQUE: u32 = 0x1;

/// The packed form of a version number.
pub open spec fn api_version(variant: u32, major: u32, minor: u32, patch: u32) -> u32 {
    (variant << 29) | (major << 22) | (minor << 12) | patch
}

/// `ash::vk::make_api_version` packs the four parts of a version into one
/// word: the variant from bit 29, the major number from bit 22, the minor
/// number from bit 12, the patch below. Trusted.
pub assume_specification[ ash::vk::make_api_version ](
    variant: u32,
    major: u32,
    minor: u32,
    patch: u32,
) -> (r: u32)
    ensures
        r == api_version(variant, major, minor, patch),
;

/// Whether every bit of `wanted` is set in `flags`.
pub open spec fn flags_contain(flags: u32, wanted: u32) -> bool {
    flags & wanted == wanted
}

/// Calls `ash::vk::QueueFlags::contains` on two sets of queue flags given by
/// their raw bits. Trusted: the outside method answers whether every bit of
/// the second set is in the first.
#[verifier::external_body]
pub(crate) fn queue_flags_contain(flags: u32, wanted: u32) -> (r: bool)
    ensures
        r == flags_contain(flags, wanted),
{
    ash::vk::QueueFlags::from_raw(flags).contains(ash::vk::QueueFlags::from_raw(wanted))
}

/// Name of the device extension that swapchains need.
pub open spec fn swapchain_extension() -> Seq<char> {
    "VK_KHR_swapchain"@
}

/// Reads `ash::khr::swapchain::NAME` as a `String`. Trusted: the outside
/// constant holds the text `VK_KHR_swapchain`.
#[verifier::external_body]
pub(crate) fn swapchain_extension_name() -> (r: String)
    ensures
        r@ == swapchain_extension(),
{
    ash::khr::swapchain::NAME.to_string_lossy().into_owned()
}

/// Name of the instance extension that delivers driver messages.
pub open spec fn debug_utils_extension() -> Seq<char> {
    "VK_EXT_debug_utils"@
}

/// Reads `ash::ext::debug_utils::NAME` as a `String`. Trusted: the outside
/// constant holds the text `VK_EXT_debug_utils`.
#[verifier::external_body]
pub(crate) fn debug_utils_extension_name() -> (r: String)
    ensures
        r@ == debug_utils_extension(),
{
    ash::ext::debug_utils::NAME.to_string_lossy().into_owned()
}

} // verus!
