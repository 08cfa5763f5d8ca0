//! Backend-agnostic value types shared by the window, surface and swapchain.
use vstd::prelude::*;

verus! {

/// A two-dimensional size in pixels.
#[derive(Clone, Copy, Debug, PartialEq, Eq, Structural)]
pub struct Extent2D {
    pub width: u32,
    pub height: u32,
}

/// A three-dimensional image size; a 2D surface always has `depth == 1`.
#[derive(Clone, Copy, Debug, PartialEq, Eq, Structural)]
pub struct Extent {
    pub width: u32,
    pub height: u32,
    pub depth: u32,
}

impl From<Extent> for Extent2D {
    /// Drops the depth component.
    fn from(ex: Extent) -> (r: Extent2D)
        ensures
            r.width == ex.width,
            r.height == ex.height,
    {
        Extent2D { width: ex.width, height: ex.height }
    }
}

impl vstd::std_specs::convert::FromSpecImpl<Extent> for Extent2D {
    open spec fn obeys_from_spec() -> bool {
        true
    }

    open spec fn from_spec(ex: Extent) -> Extent2D {
        Extent2D { width: ex.width, height: ex.height }
    }
}

} // verus!

verus! {

/// Pixel formats a swapchain image may have.
#[derive(Clone, Copy, Debug, PartialEq, Eq, Structural)]
pub enum Format {
    Rgba8Unorm,
    Rgba8Srgb,
    Bgra8Unorm,
    Bgra8Srgb,
}

/// How completed images are queued for presentation.
#[derive(Clone, Copy, Debug, PartialEq, Eq, Structural)]
pub enum PresentMode {
    Immediate,
    Mailbox,
    Fifo,
    Relaxed,
}

/// How the alpha channel of a presented image blends with the compositor.
#[derive(Clone, Copy, Debug, PartialEq, Eq, Structural)]
pub enum CompositeAlpha {
    Opaque,
    PreMultiplied,
    PostMultiplied,
    Inherit,
}

/// Image may be the source of a transfer.
pub const USAGE_TRANSFER_SRC: u32 = 0x1;

/// Image may be the destination of a transfer.
pub const USAGE_TRANSFER_DST: u32 = 0x2;

/// Image may be sampled.
pub const USAGE_SAMPLED: u32 = 0x4;

/// Image may be used as a color attachment.
pub const USAGE_COLOR_ATTACHMENT: u32 = 0x10;

/// A set of image usage flags, one bit each.
#[derive(Clone, Copy, Debug, PartialEq, Eq, Structural)]
pub struct Usage {
    pub bits: u32,
}

impl Usage {
    /// Whether every flag of `flags` is set.
    pub fn contains(&self, flags: u32) -> (r: bool)
        ensures
            r == (self.bits & flags == flags),
    {
        self.bits & flags == flags
    }
}

/// An inclusive range `start ..= end`.
#[derive(Clone, Copy, Debug, PartialEq, Eq)]
pub struct InclusiveRange<T> {
    pub start: T,
    pub end: T,
}

/// What a surface offers for swapchain creation.
#[derive(Clone, Copy, Debug, PartialEq, Eq)]
pub struct SurfaceCapabilities {
    pub image_count: InclusiveRange<u32>,
    pub current_extent: Option<Extent2D>,
    pub extents: InclusiveRange<Extent2D>,
    pub max_image_layers: u16,
    pub usage: Usage,
    pub composite_alpha: CompositeAlpha,
}

/// Index of an image within a swapchain.
pub type SwapImageIndex = u32;

/// Marks an acquired image whose swapchain no longer matches the surface exactly.
#[derive(Clone, Copy, Debug, PartialEq, Eq, Structural)]
pub struct Suboptimal;

/// Why no image could be acquired.
#[derive(Clone, Copy, Debug, PartialEq, Eq, Structural)]
pub enum AcquireError {
    /// The native surface was destroyed; the surface must be recreated.
    SurfaceLost,
    /// The surface changed since the swapchain was made; the swapchain must be recreated.
    OutOfDate,
    /// No image became available within the timeout; the caller may retry.
    Timeout,
}

/// Handle of a native framebuffer object.
pub type RawFrameBuffer = u32;

/// A GPU-side synchronization primitive signalled between queue operations.
#[derive(Clone, Copy, Debug, PartialEq, Eq, Structural)]
pub struct Semaphore {
    pub raw: u32,
}

/// A synchronization primitive the host can wait on.
#[derive(Clone, Copy, Debug, PartialEq, Eq, Structural)]
pub struct Fence {
    pub raw: u32,
}

/// A queue family of a physical device.
#[derive(Clone, Copy, Debug, PartialEq, Eq, Structural)]
pub struct QueueFamily {
    pub id: usize,
}

/// A physical device, bound to the native canvas it draws on.
#[derive(Clone, Copy, Debug, PartialEq, Eq, Structural)]
pub struct PhysicalDevice {
    /// Size of the canvas the device's context was created for.
    pub canvas_extent: Extent2D,
}

/// A graphics adapter usable with a surface.
#[derive(Clone, Copy, Debug, PartialEq, Eq, Structural)]
pub struct Adapter {
    pub physical_device: PhysicalDevice,
}

/// Why a swapchain cannot be configured for a surface.
#[derive(Clone, Copy, Debug, PartialEq, Eq, Structural)]
pub enum CreationError {
    /// The surface's pixel format maps to no known swapchain format.
    UnsupportedFormat,
}

} // verus!
