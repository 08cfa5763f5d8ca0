//! The window, the surface bound to it, and the swapchain drawn into it.
use vstd::prelude::*;

use crate::format::PixelFormat;
use crate::hal::{
    AcquireError, Adapter, CompositeAlpha, Extent, Extent2D, Fence, Format, InclusiveRange,
    PhysicalDevice, PresentMode, QueueFamily, RawFrameBuffer, Semaphore, Suboptimal,
    SurfaceCapabilities, SwapImageIndex, Usage, USAGE_COLOR_ATTACHMENT, USAGE_TRANSFER_SRC,
};

verus! {

/// A drawable canvas of a given size.
#[derive(Clone, Copy, Debug)]
pub struct Window {
    extent: Extent2D,
}

/// The pixel format of every window on this platform profile.
pub open spec fn platform_pixel_format() -> PixelFormat {
    PixelFormat {
        color_bits: 24,
        alpha_bits: 8,
        srgb: false,
        double_buffer: true,
        multisampling: None,
    }
}

impl Window {
    /// Size of the drawable.
    pub closed spec fn spec_extent(&self) -> Extent2D {
        self.extent
    }

    /// A window whose drawable has the given size.
    pub fn new(extent: Extent2D) -> (r: Window)
        ensures
            r.spec_extent() == extent,
    {
        Window { extent }
    }

    /// The pixel format of the drawable: 24 color bits, 8 alpha bits, not sRGB,
    /// double-buffered, no multisampling.
    pub fn get_pixel_format(&self) -> (r: PixelFormat)
        ensures
            r == platform_pixel_format(),
    {
        PixelFormat {
            color_bits: 24,
            alpha_bits: 8,
            srgb: false,
            double_buffer: true,
            multisampling: None,
        }
    }

    /// The drawable size as a 3D extent of depth one.
    pub fn get_window_extent(&self) -> (r: Extent)
        ensures
            r.width == self.spec_extent().width,
            r.height == self.spec_extent().height,
            r.depth == 1,
    {
        Extent { width: self.extent.width, height: self.extent.height, depth: 1 }
    }

    /// Accepts a resize request. The native canvas is resized by its owner, so
    /// the window's recorded state does not change here.
    pub fn resize<T>(&self, _parameter: T) {
    }
}

/// A presentable surface bound to a copy of a window.
#[derive(Clone, Copy, Debug)]
pub struct Surface {
    window: Window,
}

impl Surface {
    /// The window this surface presents to.
    pub closed spec fn spec_window(&self) -> Window {
        self.window
    }

    /// A surface over a copy of `window`.
    pub fn from_window(window: &Window) -> (r: Surface)
        ensures
            r.spec_window() == *window,
    {
        Surface { window: *window }
    }

    /// Swapchain formats compatible with the window's pixel format, preferred first.
    pub fn swapchain_formats(&self) -> (r: Vec<Format>)
        ensures
            r@ == platform_pixel_format().spec_formats(),
            r@ == seq![Format::Rgba8Unorm, Format::Bgra8Unorm],
    {
        let pixel_format = self.window.get_pixel_format();
        let r = pixel_format.swapchain_formats();
        assert(r@ =~= seq![Format::Rgba8Unorm, Format::Bgra8Unorm]);
        r
    }
}

impl Surface {
    /// Reports what a swapchain on this surface may use: the capabilities, the
    /// explicit list of formats (always given, possibly empty), and the present
    /// modes. The image count is fixed by the pixel format's buffering, and the
    /// extent range is pinned to the window's current size.
    pub fn compatibility(&self, _adapter: &PhysicalDevice) -> (r: (
        SurfaceCapabilities,
        Option<Vec<Format>>,
        Vec<PresentMode>,
    ))
        ensures
            ({
                let (caps, formats, present_modes) = r;
                let n = platform_pixel_format().spec_image_count();
                let e = self.spec_window().spec_extent();
                &&& caps.image_count == (InclusiveRange { start: n, end: n })
                &&& caps.current_extent == Some(e)
                &&& caps.extents == (InclusiveRange { start: e, end: e })
                &&& caps.max_image_layers == 1
                &&& caps.usage.bits == USAGE_COLOR_ATTACHMENT | USAGE_TRANSFER_SRC
                &&& caps.composite_alpha == CompositeAlpha::Opaque
                &&& formats.is_some()
                &&& formats.unwrap()@ == platform_pixel_format().spec_formats()
                &&& present_modes@ == seq![PresentMode::Fifo]
            }),
    {
        let ex = self.window.get_window_extent();
        let extent = Extent2D::from(ex);
        let pixel_format = self.window.get_pixel_format();
        let n = pixel_format.image_count();
        let caps = SurfaceCapabilities {
            image_count: InclusiveRange { start: n, end: n },
            current_extent: Some(extent),
            extents: InclusiveRange { start: extent, end: extent },
            max_image_layers: 1,
            usage: Usage { bits: USAGE_COLOR_ATTACHMENT | USAGE_TRANSFER_SRC },
            composite_alpha: CompositeAlpha::Opaque,
        };
        let present_modes = vec![PresentMode::Fifo];
        assert(present_modes@ =~= seq![PresentMode::Fifo]);
        (caps, Some(self.swapchain_formats()), present_modes)
    }

    /// Whether images of this surface can be presented from a queue family: every
    /// queue family can.
    pub fn supports_queue_family(&self, _family: &QueueFamily) -> (r: bool)
        ensures
            r,
    {
        true
    }

    /// The adapters usable with this surface: one, whose device draws on a
    /// canvas of the window's size.
    pub fn enumerate_adapters(&self) -> (r: Vec<Adapter>)
        ensures
            r@.len() == 1,
            r@[0].physical_device.canvas_extent == self.spec_window().spec_extent(),
    {
        let adapter = Adapter { physical_device: PhysicalDevice { canvas_extent: self.window.extent } };
        vec![adapter]
    }
}

/// The chain of framebuffers presented to a surface, in order.
#[derive(Clone, Debug)]
pub struct Swapchain {
    extent: Extent2D,
    fbos: Vec<RawFrameBuffer>,
}

impl Swapchain {
    /// Size agreed when the swapchain was made.
    pub closed spec fn spec_extent(&self) -> Extent2D {
        self.extent
    }

    /// The framebuffers, in presentation order.
    pub closed spec fn spec_fbos(&self) -> Seq<RawFrameBuffer> {
        self.fbos@
    }

    /// A swapchain of the given size over the given framebuffers.
    pub fn new(extent: Extent2D, fbos: Vec<RawFrameBuffer>) -> (r: Swapchain)
        ensures
            r.spec_extent() == extent,
            r.spec_fbos() == fbos@,
    {
        Swapchain { extent, fbos }
    }

    /// Size agreed when the swapchain was made.
    pub fn extent(&self) -> (r: Extent2D)
        ensures
            r == self.spec_extent(),
    {
        self.extent
    }

    /// Number of framebuffers in the chain.
    pub fn image_count(&self) -> (r: usize)
        ensures
            r == self.spec_fbos().len(),
    {
        self.fbos.len()
    }

    /// Acquires the next image to draw into. The semaphore and fence are not
    /// signalled and the timeout is not waited on: the first image is always
    /// ready, and the swapchain always matches its surface.
    pub fn acquire_image(
        &mut self,
        _timeout_ns: u64,
        _semaphore: Option<&Semaphore>,
        _fence: Option<&Fence>,
    ) -> (r: Result<(SwapImageIndex, Option<Suboptimal>), AcquireError>)
        ensures
            r == Ok::<(SwapImageIndex, Option<Suboptimal>), AcquireError>((0, None)),
            final(self).spec_extent() == old(self).spec_extent(),
            final(self).spec_fbos() == old(self).spec_fbos(),
    {
        Ok((0, None))
    }
}

} // verus!
