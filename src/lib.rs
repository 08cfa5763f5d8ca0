//! Surface and swapchain capability negotiation for a canvas-backed window.
//!
//! A `Window` carries the drawable size; a `Surface` wraps a copy of it and
//! reports which pixel formats, present modes, image counts and extents the
//! graphics backend may use; a `Swapchain` hands out the next image to draw.
mod format;
mod hal;
mod window;

pub use format::{
    formats_of, lemma_double_buffer_two_images, lemma_linear_formats, lemma_srgb_formats,
    lemma_untabulated_formats_empty, PixelFormat,
};
pub use hal::{
    AcquireError, Adapter, CompositeAlpha, CreationError, Extent, Extent2D, Fence, Format, InclusiveRange,
    PhysicalDevice, PresentMode, QueueFamily, RawFrameBuffer, Semaphore, Suboptimal,
    SurfaceCapabilities, SwapImageIndex, Usage, USAGE_COLOR_ATTACHMENT, USAGE_SAMPLED,
    USAGE_TRANSFER_DST, USAGE_TRANSFER_SRC,
};
pub use window::{platform_pixel_format, Surface, Swapchain, Window};
