//! Pixel formats of a drawable and the swapchain formats they map to.
use vstd::prelude::*;

use crate::hal::{CreationError, Format};

verus! {

/// Pixel layout of a drawable surface.
#[derive(Clone, Copy, Debug, PartialEq, Eq, Structural)]
pub struct PixelFormat {
    pub color_bits: u32,
    pub alpha_bits: u32,
    pub srgb: bool,
    pub double_buffer: bool,
    pub multisampling: Option<u32>,
}

/// The swapchain formats known for a color depth, alpha depth and color space.
pub open spec fn formats_of(color_bits: u32, alpha_bits: u32, srgb: bool) -> Seq<Format> {
    if color_bits == 24 && alpha_bits == 8 {
        if srgb {
            seq![Format::Rgba8Srgb, Format::Bgra8Srgb]
        } else {
            seq![Format::Rgba8Unorm, Format::Bgra8Unorm]
        }
    } else {
        Seq::empty()
    }
}

impl PixelFormat {
    /// Whether the table of swapchain formats has an entry for this pixel format.
    pub open spec fn is_tabulated(&self) -> bool {
        self.color_bits == 24 && self.alpha_bits == 8
    }

    /// The swapchain formats this pixel format maps to.
    pub open spec fn spec_formats(&self) -> Seq<Format> {
        formats_of(self.color_bits, self.alpha_bits, self.srgb)
    }

    /// Number of images in a swapchain for this pixel format.
    pub open spec fn spec_image_count(&self) -> u32 {
        if self.double_buffer {
            2
        } else {
            1
        }
    }

    /// The swapchain formats compatible with this pixel format, preferred first.
    /// An empty list means no compatible format is known; it is not an error.
    pub fn swapchain_formats(&self) -> (r: Vec<Format>)
        ensures
            r@ == self.spec_formats(),
    {
        let r = match (self.color_bits, self.alpha_bits, self.srgb) {
            (24, 8, true) => vec![Format::Rgba8Srgb, Format::Bgra8Srgb],
            (24, 8, false) => vec![Format::Rgba8Unorm, Format::Bgra8Unorm],
            _ => Vec::new(),
        };
        assert(r@ =~= self.spec_formats());
        r
    }

    /// The first of the swapchain formats, or `UnsupportedFormat` when there is
    /// none.
    pub fn preferred_format(&self) -> (r: Result<Format, CreationError>)
        ensures
            self.spec_formats().len() > 0 ==> r == Ok::<Format, CreationError>(
                self.spec_formats()[0],
            ),
            self.spec_formats().len() == 0 ==> r == Err::<Format, CreationError>(
                CreationError::UnsupportedFormat,
            ),
    {
        let formats = self.swapchain_formats();
        if formats.len() == 0 {
            Err(CreationError::UnsupportedFormat)
        } else {
            Ok(formats[0])
        }
    }

    /// Number of images a swapchain holds: two when double-buffered, else one.
    pub fn image_count(&self) -> (r: u32)
        ensures
            r == self.spec_image_count(),
    {
        if self.double_buffer {
            2
        } else {
            1
        }
    }
}

/// A pixel format outside the table maps to no swapchain format.
pub proof fn lemma_untabulated_formats_empty(pf: PixelFormat)
    requires
        !pf.is_tabulated(),
    ensures
        pf.spec_formats() == Seq::<Format>::empty(),
{
}

/// A 24-bit color, 8-bit alpha pixel format in linear color space maps to
/// RGBA8 then BGRA8, both unorm.
pub proof fn lemma_linear_formats(pf: PixelFormat)
    requires
        pf.color_bits == 24,
        pf.alpha_bits == 8,
        !pf.srgb,
    ensures
        pf.spec_formats() == seq![Format::Rgba8Unorm, Format::Bgra8Unorm],
{
}

/// A 24-bit color, 8-bit alpha pixel format in sRGB color space maps to
/// RGBA8 then BGRA8, both sRGB.
pub proof fn lemma_srgb_formats(pf: PixelFormat)
    requires
        pf.color_bits == 24,
        pf.alpha_bits == 8,
        pf.srgb,
    ensures
        pf.spec_formats() == seq![Format::Rgba8Srgb, Format::Bgra8Srgb],
{
}

/// A double-buffered pixel format gives a swapchain of exactly two images.
pub proof fn lemma_double_buffer_two_images(pf: PixelFormat)
    requires
        pf.double_buffer,
    ensures
        pf.spec_image_count() == 2,
{
}

} // verus!
