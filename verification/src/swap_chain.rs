use vstd::prelude::*;
use crate::error::Error;
use crate::logical_device::{find_queue_families, queue_families, QueueFamily, QueueFamilyIndices};
use crate::surface::{
    best_format, best_present_mode, swap_extent, wanted_image_count, Extent2D, PresentMode,
    SurfaceCapabilities,
};
use crate::vk::{COMPOSITE_ALPHA_OPAQUE, IMAGE_USAGE_COLOR_ATTACHMENT};

verus! {

/// The handle that stands for no swapchain.
pub const NULL_HANDLE: u64 = 0;

/// How the images are shared between queue families.
#[derive(Clone, Copy, Debug, PartialEq, Eq, Structural)]
pub enum SharingMode {
    /// One family owns an image at a time.
    Exclusive,
    /// The listed families use the images side by side.
    Concurrent,
}

impl SharingMode {
    /// The raw value of the mode.
    pub open spec fn raw(self) -> i32 {
        match self {
            SharingMode::Exclusive => 0,
            SharingMode::Concurrent => 1,
        }
    }

    /// The raw value of the mode.
    pub fn as_raw(self) -> (r: i32)
        ensures
            r == self.raw(),
    {
        match self {
            SharingMode::Exclusive => 0,
            SharingMode::Concurrent => 1,
        }
    }
}

/// What a swapchain is created with.
#[derive(Debug, PartialEq, Eq)]
pub struct SwapChain {
    pub min_image_count: u32,
    pub image_format: i32,
    pub image_color_space: i32,
    pub image_extent: Extent2D,
    pub image_array_layers: u32,
    pub image_usage: u32,
    pub image_sharing_mode: SharingMode,
    /// The families that share the images; empty unless sharing is concurrent.
    pub queue_family_indices: Vec<u32>,
    pub pre_transform: u32,
    pub composite_alpha: u32,
    pub present_mode: PresentMode,
    pub clipped: bool,
    /// The swapchain that this one replaces, or `NULL_HANDLE`.
    pub old_swapchain: u64,
}

/// The families that share the images: both, graphics first, where the two
/// roles have different families; none where they have the same.
pub open spec fn sharing_families(indices: QueueFamilyIndices) -> Seq<u32> {
    if indices.graphics_family != indices.present_family {
        seq![indices.graphics_family->Some_0, indices.present_family->Some_0]
    } else {
        Seq::empty()
    }
}

impl SwapChain {
    /// Whether this is the swapchain to create on a surface with the given
    /// `capabilities`, for the resolved `indices`, a window of `width` by
    /// `height` pixels and the swapchain `previous` that it replaces.
    pub open spec fn is_for(
        &self,
        capabilities: SurfaceCapabilities,
        indices: QueueFamilyIndices,
        width: u32,
        height: u32,
        previous: Option<u64>,
    ) -> bool {
        let format = best_format(capabilities.physical_device_surface_formats@)->Some_0;
        &&& self.min_image_count == wanted_image_count(capabilities.capabilities)
        &&& self.image_format == format.format
        &&& self.image_color_space == format.color_space
        &&& self.image_extent == swap_extent(capabilities.capabilities, width, height)
        &&& self.image_array_layers == 1
        &&& self.image_usage == IMAGE_USAGE_COLOR_ATTACHMENT
        &&& self.image_sharing_mode == if indices.graphics_family != indices.present_family {
            SharingMode::Concurrent
        } else {
            SharingMode::Exclusive
        }
        &&& self.queue_family_indices@ == sharing_families(indices)
        &&& self.pre_transform == capabilities.capabilities.current_transform
        &&& self.composite_alpha == COMPOSITE_ALPHA_OPAQUE
        &&& Some(self.present_mode) == best_present_mode(
            capabilities.physical_device_surface_present_modes@,
        )
        &&& self.clipped
        &&& self.old_swapchain == match previous {
            Some(handle) => handle,
            None => NULL_HANDLE,
        }
    }

    /// Lays out the swapchain for a surface and a window size.
    ///
    /// A surface without a format or without a present mode is refused.
    /// Then the queue families are resolved: a failed present query that the
    /// scan reaches is the error, and so is a role that found no family.
    pub fn new(
        capabilities: &SurfaceCapabilities,
        families: &Vec<QueueFamily>,
        width: u32,
        height: u32,
        previous: Option<u64>,
    ) -> (r: Result<SwapChain, Error>)
        requires
            capabilities.capabilities.well_formed(),
            families@.len() <= u32::MAX,
        ensures
            if capabilities.physical_device_surface_formats@.len() == 0
                || capabilities.physical_device_surface_present_modes@.len() == 0 {
                r is Err && r->Err_0 == Error::InadequateSurface
            } else {
                match queue_families(families@, true) {
                    Err(e) => r is Err && r->Err_0 == e,
                    Ok(indices) => if indices.complete_for(true) {
                        r is Ok && r->Ok_0.is_for(*capabilities, indices, width, height, previous)
                    } else {
                        r is Err && r->Err_0 == Error::IncompleteQueueFamilies
                    },
                }
            },
    {
        if !capabilities.is_adequate() {
            return Err(Error::InadequateSurface);
        }
        let best_surface_format = match capabilities.find_best_format() {
            Some(format) => format,
            None => {
                return Err(Error::InadequateSurface);
            },
        };
        let best_present_mode = match capabilities.find_best_present_mode() {
            Some(mode) => mode,
            None => {
                return Err(Error::InadequateSurface);
            },
        };
        let extent_2d = capabilities.find_swap_extent(width, height);
        let indices = match find_queue_families(families, true) {
            Err(e) => {
                return Err(e);
            },
            Ok(indices) => indices,
        };
        let (graphics, present) = match (indices.graphics_family, indices.present_family) {
            (Some(graphics), Some(present)) => (graphics, present),
            _ => {
                return Err(Error::IncompleteQueueFamilies);
            },
        };
        let mut queue_family_indices: Vec<u32> = Vec::new();
        let image_sharing_mode = if graphics != present {
            queue_family_indices.push(graphics);
            queue_family_indices.push(present);
            SharingMode::Concurrent
        } else {
            SharingMode::Exclusive
        };
        assert(queue_family_indices@ =~= sharing_families(indices));
        Ok(
            SwapChain {
                min_image_count: capabilities.image_count(),
                image_format: best_surface_format.format,
                image_color_space: best_surface_format.color_space,
                image_extent: extent_2d,
                image_array_layers: 1,
                image_usage: IMAGE_USAGE_COLOR_ATTACHMENT,
                image_sharing_mode,
                queue_family_indices,
                pre_transform: capabilities.capabilities().current_transform,
                composite_alpha: COMPOSITE_ALPHA_OPAQUE,
                present_mode: best_present_mode,
                clipped: true,
                old_swapchain: match previous {
                    Some(handle) => handle,
                    None => NULL_HANDLE,
                },
            },
        )
    }
}

/// Where a window's swapchain stands. A state with a handle holds the
/// swapchain in use; while one is being built, the handle is that of the
/// swapchain it replaces, if any.
#[derive(Clone, Copy, Debug, PartialEq, Eq, Structural)]
pub enum ChainState {
    Unbuilt,
    Built(u64),
    Stale(u64),
    Rebuilding(Option<u64>),
}

/// What happens to a window's swapchain.
#[derive(Clone, Copy, Debug, PartialEq, Eq, Structural)]
pub enum ChainEvent {
    /// The window has a new size.
    Resized,
    /// A frame is to be drawn.
    FrameRequested,
    /// The swapchain asked for was created, with this handle.
    Created(u64),
    /// The swapchain asked for could not be created.
    CreationFailed,
}

/// What the owner of the swapchain has to do next.
#[derive(Clone, Copy, Debug, PartialEq, Eq, Structural)]
pub enum ChainAction {
    Nothing,
    /// Query the surface anew and create a swapchain that replaces the given one.
    Build(Option<u64>),
    /// Destroy the given swapchain once no frame in flight uses it.
    Retire(u64),
}

/// The state after `event` and what is to be done. A resize makes a built
/// swapchain stale. A frame request starts building where there is no
/// swapchain or a stale one. A created swapchain is in use from then on, and
/// the one it replaced is retired. After a failed creation the swapchain is
/// as stale, or as missing, as before. Nothing else changes anything.
pub open spec fn chain_step(state: ChainState, event: ChainEvent) -> (ChainState, ChainAction) {
    match (state, event) {
        (ChainState::Built(chain), ChainEvent::Resized) => (
            ChainState::Stale(chain),
            ChainAction::Nothing,
        ),
        (ChainState::Unbuilt, ChainEvent::FrameRequested) => (
            ChainState::Rebuilding(None),
            ChainAction::Build(None),
        ),
        (ChainState::Stale(chain), ChainEvent::FrameRequested) => (
            ChainState::Rebuilding(Some(chain)),
            ChainAction::Build(Some(chain)),
        ),
        (ChainState::Rebuilding(Some(old)), ChainEvent::Created(chain)) => (
            ChainState::Built(chain),
            ChainAction::Retire(old),
        ),
        (ChainState::Rebuilding(None), ChainEvent::Created(chain)) => (
            ChainState::Built(chain),
            ChainAction::Nothing,
        ),
        (ChainState::Rebuilding(Some(old)), ChainEvent::CreationFailed) => (
            ChainState::Stale(old),
            ChainAction::Nothing,
        ),
        (ChainState::Rebuilding(None), ChainEvent::CreationFailed) => (
            ChainState::Unbuilt,
            ChainAction::Nothing,
        ),
        _ => (state, ChainAction::Nothing),
    }
}

impl ChainState {
    /// Takes in one event: gives the next state and what is to be done.
    pub fn step(self, event: ChainEvent) -> (r: (ChainState, ChainAction))
        ensures
            r == chain_step(self, event),
    {
        match self {
            ChainState::Unbuilt => match event {
                ChainEvent::FrameRequested => (
                    ChainState::Rebuilding(None),
                    ChainAction::Build(None),
                ),
                _ => (self, ChainAction::Nothing),
            },
            ChainState::Built(chain) => match event {
                ChainEvent::Resized => (ChainState::Stale(chain), ChainAction::Nothing),
                _ => (self, ChainAction::Nothing),
            },
            ChainState::Stale(chain) => match event {
                ChainEvent::FrameRequested => (
                    ChainState::Rebuilding(Some(chain)),
                    ChainAction::Build(Some(chain)),
                ),
                _ => (self, ChainAction::Nothing),
            },
            ChainState::Rebuilding(previous) => match event {
                ChainEvent::Created(chain) => (
                    ChainState::Built(chain),
                    match previous {
                        Some(old) => ChainAction::Retire(old),
                        None => ChainAction::Nothing,
                    },
                ),
                ChainEvent::CreationFailed => (
                    match previous {
                        Some(old) => ChainState::Stale(old),
                        None => ChainState::Unbuilt,
                    },
                    ChainAction::Nothing,
                ),
                _ => (self, ChainAction::Nothing),
            },
        }
    }
}

/// A swapchain is retired only when another has taken its place: whenever a
/// step asks to retire a swapchain, that swapchain was the one being
/// replaced, and the step ends with a swapchain in use.
pub proof fn retired_only_after_replacement(state: ChainState, event: ChainEvent, old: u64)
    requires
        chain_step(state, event).1 == ChainAction::Retire(old),
    ensures
        state == ChainState::Rebuilding(Some(old)),
        event is Created,
        chain_step(state, event).0 == ChainState::Built(event->Created_0),
{
}

} // verus!
