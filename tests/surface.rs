use gl_surface::{
    AcquireError, CompositeAlpha, Extent2D, Format, InclusiveRange, PhysicalDevice, PixelFormat,
    PresentMode, QueueFamily, Surface, Swapchain, Window, USAGE_COLOR_ATTACHMENT, USAGE_SAMPLED,
    USAGE_TRANSFER_DST, USAGE_TRANSFER_SRC,
};

fn window(width: u32, height: u32) -> Window {
    Window::new(Extent2D { width, height })
}

fn device() -> PhysicalDevice {
    PhysicalDevice { canvas_extent: Extent2D { width: 1, height: 1 } }
}

fn pixel_format(color_bits: u32, alpha_bits: u32, srgb: bool) -> PixelFormat {
    PixelFormat { color_bits, alpha_bits, srgb, double_buffer: true, multisampling: None }
}

#[test]
fn window_extent_has_depth_one() {
    for (w, h) in [(800u32, 600u32), (0, 0), (1, u32::MAX), (u32::MAX, u32::MAX)] {
        let ex = window(w, h).get_window_extent();
        assert_eq!(ex.width, w);
        assert_eq!(ex.height, h);
        assert_eq!(ex.depth, 1);
    }
}

#[test]
fn window_pixel_format_is_fixed() {
    let pf = window(640, 480).get_pixel_format();
    assert_eq!(pf.color_bits, 24);
    assert_eq!(pf.alpha_bits, 8);
    assert!(!pf.srgb);
    assert!(pf.double_buffer);
    assert_eq!(pf.multisampling, None);
}

#[test]
fn resize_leaves_window_unchanged() {
    let w = window(320, 200);
    w.resize((1024u32, 768u32));
    w.resize("full screen");
    let ex = w.get_window_extent();
    assert_eq!((ex.width, ex.height), (320, 200));
}

#[test]
fn linear_formats_in_order() {
    let v = pixel_format(24, 8, false).swapchain_formats();
    assert_eq!(v, vec![Format::Rgba8Unorm, Format::Bgra8Unorm]);
    let s = Surface::from_window(&window(800, 600));
    assert_eq!(s.swapchain_formats(), vec![Format::Rgba8Unorm, Format::Bgra8Unorm]);
}

#[test]
fn srgb_formats_in_order() {
    let v = pixel_format(24, 8, true).swapchain_formats();
    assert_eq!(v, vec![Format::Rgba8Srgb, Format::Bgra8Srgb]);
}

#[test]
fn untabulated_formats_are_empty_every_time() {
    for (c, a) in [(32u32, 8u32), (24, 0), (16, 8), (0, 0), (8, 24)] {
        for srgb in [false, true] {
            let pf = pixel_format(c, a, srgb);
            let first = pf.swapchain_formats();
            let second = pf.swapchain_formats();
            assert!(first.is_empty());
            assert_eq!(first, second);
        }
    }
}

#[test]
fn image_count_follows_buffering() {
    let mut pf = pixel_format(24, 8, false);
    assert_eq!(pf.image_count(), 2);
    pf.double_buffer = false;
    assert_eq!(pf.image_count(), 1);
}

#[test]
fn compatibility_pins_image_count_and_extent() {
    for (w, h) in [(1u32, 1u32), (1920, 1080), (0, 0)] {
        let s = Surface::from_window(&window(w, h));
        let (caps, _, _) = s.compatibility(&device());
        let e = Extent2D { width: w, height: h };
        assert_eq!(caps.image_count, InclusiveRange { start: 2, end: 2 });
        assert_eq!(caps.current_extent, Some(caps.extents.start));
        assert_eq!(caps.current_extent, Some(caps.extents.end));
        assert_eq!(caps.current_extent, Some(e));
        assert_eq!(caps.max_image_layers, 1);
        assert_eq!(caps.composite_alpha, CompositeAlpha::Opaque);
    }
}

#[test]
fn compatibility_usage_flags() {
    let s = Surface::from_window(&window(800, 600));
    let (caps, _, _) = s.compatibility(&device());
    assert_eq!(caps.usage.bits, 0x11);
    assert!(caps.usage.contains(USAGE_COLOR_ATTACHMENT));
    assert!(caps.usage.contains(USAGE_TRANSFER_SRC));
    assert!(caps.usage.contains(USAGE_COLOR_ATTACHMENT | USAGE_TRANSFER_SRC));
    assert!(!caps.usage.contains(USAGE_TRANSFER_DST));
    assert!(!caps.usage.contains(USAGE_SAMPLED));
}

#[test]
fn compatibility_scenario_800_by_600() {
    let w = window(800, 600);
    let s = Surface::from_window(&w);
    let (caps, formats, present_modes) = s.compatibility(&device());
    assert_eq!(caps.current_extent, Some(Extent2D { width: 800, height: 600 }));
    assert_eq!(caps.image_count, InclusiveRange { start: 2, end: 2 });
    assert_eq!(present_modes, vec![PresentMode::Fifo]);
    assert_eq!(formats, Some(vec![Format::Rgba8Unorm, Format::Bgra8Unorm]));
}

#[test]
fn every_queue_family_is_supported() {
    let s = Surface::from_window(&window(800, 600));
    for id in [0usize, 1, 7, usize::MAX] {
        assert!(s.supports_queue_family(&QueueFamily { id }));
    }
}

#[test]
fn one_adapter_bound_to_window_size() {
    let s = Surface::from_window(&window(1280, 720));
    let adapters = s.enumerate_adapters();
    assert_eq!(adapters.len(), 1);
    assert_eq!(
        adapters[0].physical_device.canvas_extent,
        Extent2D { width: 1280, height: 720 }
    );
}

#[test]
fn acquire_image_returns_first_image() {
    let mut sc = Swapchain::new(Extent2D { width: 800, height: 600 }, vec![3, 4]);
    let r: Result<_, AcquireError> = sc.acquire_image(0, None, None);
    assert_eq!(r, Ok((0, None)));
    assert_eq!(sc.image_count(), 2);
    assert_eq!(sc.extent(), Extent2D { width: 800, height: 600 });
}

#[test]
fn acquire_image_ignores_timeout_and_sync() {
    let mut sc = Swapchain::new(Extent2D { width: 16, height: 9 }, vec![5]);
    let sem = gl_surface::Semaphore { raw: 1 };
    let fence = gl_surface::Fence { raw: 2 };
    for t in [0u64, 1, 1_000_000, u64::MAX] {
        assert_eq!(sc.acquire_image(t, Some(&sem), Some(&fence)), Ok((0, None)));
        assert_eq!(sc.acquire_image(t, None, None), Ok((0, None)));
    }
    assert_eq!(sc.image_count(), 1);
}

#[test]
fn preferred_format_is_first_or_unsupported() {
    assert_eq!(pixel_format(24, 8, false).preferred_format(), Ok(Format::Rgba8Unorm));
    assert_eq!(pixel_format(24, 8, true).preferred_format(), Ok(Format::Rgba8Srgb));
    assert_eq!(
        pixel_format(32, 8, false).preferred_format(),
        Err(gl_surface::CreationError::UnsupportedFormat)
    );
}
