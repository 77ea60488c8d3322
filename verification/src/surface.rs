use vstd::prelude::*;
use crate::utils::{clamp_u32, clamped};

verus! {

/// Raw value of the 8-bit BGRA sRGB pixel format.
pub const FORMAT_B8G8R8A8_SRGB: i32 = 50;

/// Raw value of the non-linear sRGB colour space.
pub const COLOR_SPACE_SRGB_NONLINEAR: i32 = 0;

/// Width that a surface reports as its current extent when the extent is
/// taken from the window instead.
pub const EXTENT_FROM_WINDOW: u32 = 0xffff_ffff;

/// A size in pixels.
#[derive(Clone, Copy, Debug, PartialEq, Eq, Structural)]
pub struct Extent2D {
    pub width: u32,
    pub height: u32,
}

/// A pixel format together with the colour space it is shown in, both by
/// their raw values.
#[derive(Clone, Copy, Debug, PartialEq, Eq, Structural)]
pub struct SurfaceFormat {
    pub format: i32,
    pub color_space: i32,
}

impl SurfaceFormat {
    /// Whether this is the preferred pair: 8-bit BGRA sRGB, shown non-linear.
    pub open spec fn is_preferred(self) -> bool {
        self.format == FORMAT_B8G8R8A8_SRGB && self.color_space == COLOR_SPACE_SRGB_NONLINEAR
    }
}

/// How finished images are handed to the display.
#[derive(Clone, Copy, Debug, PartialEq, Eq, Structural)]
pub enum PresentMode {
    Immediate,
    Mailbox,
    Fifo,
    FifoRelaxed,
    /// Any other mode, by its raw value.
    Other(i32),
}

/// The present mode that a raw value stands for.
pub open spec fn present_mode_of(raw: i32) -> PresentMode {
    if raw == 0 {
        PresentMode::Immediate
    } else if raw == 1 {
        PresentMode::Mailbox
    } else if raw == 2 {
        PresentMode::Fifo
    } else if raw == 3 {
        PresentMode::FifoRelaxed
    } else {
        PresentMode::Other(raw)
    }
}

impl PresentMode {
    /// The raw value of the mode.
    pub open spec fn raw(self) -> i32 {
        match self {
            PresentMode::Immediate => 0,
            PresentMode::Mailbox => 1,
            PresentMode::Fifo => 2,
            PresentMode::FifoRelaxed => 3,
            PresentMode::Other(raw) => raw,
        }
    }

    /// The mode that a raw value stands for. A value that has a name never
    /// comes out as `Other`.
    pub fn from_raw(raw: i32) -> (r: PresentMode)
        ensures
            r == present_mode_of(raw),
    {
        if raw == 0 {
            PresentMode::Immediate
        } else if raw == 1 {
            PresentMode::Mailbox
        } else if raw == 2 {
            PresentMode::Fifo
        } else if raw == 3 {
            PresentMode::FifoRelaxed
        } else {
            PresentMode::Other(raw)
        }
    }

    /// The raw value of the mode.
    pub fn as_raw(self) -> (r: i32)
        ensures
            r == self.raw(),
    {
        match self {
            PresentMode::Immediate => 0,
            PresentMode::Mailbox => 1,
            PresentMode::Fifo => 2,
            PresentMode::FifoRelaxed => 3,
            PresentMode::Other(raw) => raw,
        }
    }
}

/// A raw value comes back from the mode it stands for; and a mode comes back
/// from its raw value unless it is an `Other` that holds a value with a name.
pub proof fn present_mode_round_trip(raw: i32, mode: PresentMode)
    ensures
        present_mode_of(raw).raw() == raw,
        !(mode matches PresentMode::Other(v) && 0 <= v <= 3) ==> present_mode_of(mode.raw())
            == mode,
{
}

/// The limits a surface reports for one adapter.
#[derive(Clone, Copy, Debug, PartialEq, Eq, Structural)]
pub struct SurfaceCapabilitiesKHR {
    pub min_image_count: u32,
    /// Zero when the number of images has no upper limit.
    pub max_image_count: u32,
    pub current_extent: Extent2D,
    pub min_image_extent: Extent2D,
    pub max_image_extent: Extent2D,
    /// Raw bits of the transform the surface currently applies.
    pub current_transform: u32,
}

/// What a surface supports on one adapter: its limits, its formats and its
/// present modes, the lists in the order the driver gave them.
#[derive(Clone, Debug, PartialEq, Eq)]
pub struct SurfaceCapabilities {
    pub capabilities: SurfaceCapabilitiesKHR,
    pub physical_device_surface_formats: Vec<SurfaceFormat>,
    pub physical_device_surface_present_modes: Vec<PresentMode>,
}

/// The format chosen from `formats`: the first preferred pair, else the first
/// entry, else nothing.
pub open spec fn best_format(formats: Seq<SurfaceFormat>) -> Option<SurfaceFormat> {
    if formats.len() == 0 {
        None
    } else if exists|i: int| 0 <= i < formats.len() && (#[trigger] formats[i]).is_preferred() {
        Some(
            SurfaceFormat { format: FORMAT_B8G8R8A8_SRGB, color_space: COLOR_SPACE_SRGB_NONLINEAR },
        )
    } else {
        Some(formats[0])
    }
}

/// The present mode chosen from `modes`: mailbox where it is offered, else
/// FIFO, and nothing from an empty list.
pub open spec fn best_present_mode(modes: Seq<PresentMode>) -> Option<PresentMode> {
    if modes.len() == 0 {
        None
    } else if modes.contains(PresentMode::Mailbox) {
        Some(PresentMode::Mailbox)
    } else {
        Some(PresentMode::Fifo)
    }
}

/// The extent of the images for a window of `width` by `height` pixels.
pub open spec fn swap_extent(caps: SurfaceCapabilitiesKHR, width: u32, height: u32) -> Extent2D {
    if caps.current_extent.width != EXTENT_FROM_WINDOW {
        caps.current_extent
    } else {
        Extent2D {
            width: clamped(width, caps.min_image_extent.width, caps.max_image_extent.width),
            height: clamped(height, caps.min_image_extent.height, caps.max_image_extent.height),
        }
    }
}

/// The number of images to ask for: one more than the minimum, but no more
/// than a maximum that is not zero.
pub open spec fn wanted_image_count(caps: SurfaceCapabilitiesKHR) -> int {
    if caps.max_image_count > 0 && caps.min_image_count + 1 > caps.max_image_count {
        caps.max_image_count as int
    } else {
        caps.min_image_count + 1
    }
}

impl SurfaceCapabilitiesKHR {
    /// On each axis the smallest extent is no larger than the largest.
    pub open spec fn extents_ordered(self) -> bool {
        &&& self.min_image_extent.width <= self.max_image_extent.width
        &&& self.min_image_extent.height <= self.max_image_extent.height
    }

    /// The limits are consistent: the extents are ordered, and the image
    /// count to ask for fits in 32 bits.
    pub open spec fn well_formed(self) -> bool {
        &&& self.extents_ordered()
        &&& wanted_image_count(self) <= u32::MAX
    }

    /// Tests `well_formed`.
    pub fn is_well_formed(&self) -> (r: bool)
        ensures
            r == self.well_formed(),
    {
        self.min_image_extent.width <= self.max_image_extent.width
            && self.min_image_extent.height <= self.max_image_extent.height
            && (self.min_image_count < u32::MAX || self.max_image_count > 0)
    }
}

impl SurfaceCapabilities {
    /// Puts together what three queries against a surface gave.
    pub fn new(
        capabilities: SurfaceCapabilitiesKHR,
        physical_device_surface_formats: Vec<SurfaceFormat>,
        physical_device_surface_present_modes: Vec<PresentMode>,
    ) -> (r: SurfaceCapabilities)
        ensures
            r.capabilities == capabilities,
            r.physical_device_surface_formats == physical_device_surface_formats,
            r.physical_device_surface_present_modes == physical_device_surface_present_modes,
    {
        SurfaceCapabilities {
            capabilities,
            physical_device_surface_formats,
            physical_device_surface_present_modes,
        }
    }

    /// Whether a swapchain can be built at all: at least one format and at
    /// least one present mode are offered.
    pub fn is_adequate(&self) -> (r: bool)
        ensures
            r == (self.physical_device_surface_formats@.len() > 0
                && self.physical_device_surface_present_modes@.len() > 0),
    {
        self.physical_device_surface_formats.len() > 0
            && self.physical_device_surface_present_modes.len() > 0
    }

    /// Picks the surface format: the first preferred pair in the list, else
    /// the first entry; `None` when the list is empty.
    pub fn find_best_format(&self) -> (r: Option<SurfaceFormat>)
        ensures
            r == best_format(self.physical_device_surface_formats@),
    {
        let formats = &self.physical_device_surface_formats;
        if formats.len() == 0 {
            return None;
        }
        let mut i: usize = 0;
        while i < formats.len()
            invariant
                formats@ == self.physical_device_surface_formats@,
                i <= formats.len(),
                forall|j: int| 0 <= j < i ==> !(#[trigger] formats@[j]).is_preferred(),
            decreases formats.len() - i,
        {
            let f = formats[i];
            if f.format == FORMAT_B8G8R8A8_SRGB && f.color_space == COLOR_SPACE_SRGB_NONLINEAR {
                return Some(f);
            }
            i += 1;
        }
        Some(formats[0])
    }

    /// Picks the present mode: mailbox where the list offers it, else FIFO;
    /// `None` when the list is empty.
    pub fn find_best_present_mode(&self) -> (r: Option<PresentMode>)
        ensures
            r == best_present_mode(self.physical_device_surface_present_modes@),
    {
        let modes = &self.physical_device_surface_present_modes;
        if modes.len() == 0 {
            return None;
        }
        let mut i: usize = 0;
        while i < modes.len()
            invariant
                modes@ == self.physical_device_surface_present_modes@,
                i <= modes.len(),
                forall|j: int| 0 <= j < i ==> modes@[j] != PresentMode::Mailbox,
            decreases modes.len() - i,
        {
            if modes[i] == PresentMode::Mailbox {
                return Some(PresentMode::Mailbox);
            }
            i += 1;
        }
        Some(PresentMode::Fifo)
    }

    /// Picks the extent of the images. A surface with a fixed current extent
    /// dictates it; otherwise the window's size is bounded, each axis by
    /// itself, to what the surface allows.
    pub fn find_swap_extent(&self, width: u32, height: u32) -> (r: Extent2D)
        requires
            self.capabilities.current_extent.width == EXTENT_FROM_WINDOW
                ==> self.capabilities.extents_ordered(),
        ensures
            r == swap_extent(self.capabilities, width, height),
    {
        let caps = &self.capabilities;
        if caps.current_extent.width != EXTENT_FROM_WINDOW {
            return caps.current_extent;
        }
        Extent2D {
            width: clamp_u32(width, caps.min_image_extent.width, caps.max_image_extent.width),
            height: clamp_u32(height, caps.min_image_extent.height, caps.max_image_extent.height),
        }
    }

    /// The limits of the surface.
    pub fn capabilities(&self) -> (r: &SurfaceCapabilitiesKHR)
        ensures
            *r == self.capabilities,
    {
        &self.capabilities
    }

    /// The number of images to ask for: one more than the minimum, bounded by
    /// the maximum where the surface has one.
    pub fn image_count(&self) -> (r: u32)
        requires
            wanted_image_count(self.capabilities) <= u32::MAX,
        ensures
            r == wanted_image_count(self.capabilities),
    {
        let caps = &self.capabilities;
        if caps.max_image_count > 0 && caps.min_image_count >= caps.max_image_count {
            caps.max_image_count
        } else {
            caps.min_image_count + 1
        }
    }
}

} // verus!
