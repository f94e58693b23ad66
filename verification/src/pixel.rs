//! Pixel formats and the types that stand for them.
//!
//! A [`PixelFormat`] is a value that names a texel layout and says what the
//! layout can be used for. A type that implements [`Pixel`] stands for one
//! format, so that the formats of a render target are known from its type.

use vstd::prelude::*;

verus! {

/// The texel layouts that the crate knows by name.
#[derive(Copy, Clone, Debug, PartialEq, Eq, Structural)]
pub enum PixelLayout {
    /// One 8-bit unsigned channel.
    R8UI,
    /// Four 8-bit unsigned channels.
    RGBA8UI,
    /// One 16-bit floating channel.
    R16F,
    /// Four 32-bit floating channels.
    RGBA32F,
    /// Three 9-bit floating channels that share a 5-bit exponent.
    RGB9E5,
    /// One 32-bit floating depth channel.
    Depth32F,
}

/// A pixel format: a layout and what it is capable of.
#[derive(Copy, Clone, Debug, PartialEq, Eq, Structural)]
pub struct PixelFormat {
    /// Which layout this is.
    pub layout: PixelLayout,
    /// Whether a color attachment can have this format.
    pub is_color_renderable: bool,
    /// Whether a depth attachment can have this format.
    pub is_depth_capable: bool,
}

/// A type that stands for one pixel format.
pub trait Pixel {
    /// The format that the type stands for.
    spec fn spec_pixel_format() -> PixelFormat;

    /// The format that the type stands for.
    fn pixel_format() -> (format: PixelFormat)
        ensures
            format == Self::spec_pixel_format(),
    ;
}

/// Pixels that hold a color. No color format is depth-capable.
pub trait ColorPixel: Pixel {
    proof fn color_is_not_depth()
        ensures
            !Self::spec_pixel_format().is_depth_capable,
    ;
}

/// Pixels that hold a depth. Every depth format is depth-capable.
pub trait DepthPixel: Pixel {
    proof fn depth_is_depth_capable()
        ensures
            Self::spec_pixel_format().is_depth_capable,
    ;
}

/// Pixels that can be rendered to, as a color or as a depth.
pub trait RenderablePixel: Pixel {
    proof fn renderable_as_color_or_depth()
        ensures
            Self::spec_pixel_format().is_color_renderable || Self::spec_pixel_format().is_depth_capable,
    ;
}

/// A format that is both a color format and renderable can be the format of
/// a color attachment.
pub proof fn color_renderable<P: ColorPixel + RenderablePixel>()
    ensures
        P::spec_pixel_format().is_color_renderable,
        !P::spec_pixel_format().is_depth_capable,
{
    P::color_is_not_depth();
    P::renderable_as_color_or_depth();
}

/// One 8-bit unsigned channel: red.
#[derive(Copy, Clone, Debug)]
pub struct R8UI;

impl Pixel for R8UI {
    open spec fn spec_pixel_format() -> PixelFormat {
        PixelFormat {
            layout: PixelLayout::R8UI,
            is_color_renderable: true,
            is_depth_capable: false,
        }
    }

    fn pixel_format() -> (format: PixelFormat) {
        PixelFormat {
            layout: PixelLayout::R8UI,
            is_color_renderable: true,
            is_depth_capable: false,
        }
    }
}

impl ColorPixel for R8UI {
    proof fn color_is_not_depth() {
    }
}

impl RenderablePixel for R8UI {
    proof fn renderable_as_color_or_depth() {
    }
}

/// Four 8-bit unsigned channels: red, green, blue, alpha.
#[derive(Copy, Clone, Debug)]
pub struct RGBA8UI;

impl Pixel for RGBA8UI {
    open spec fn spec_pixel_format() -> PixelFormat {
        PixelFormat {
            layout: PixelLayout::RGBA8UI,
            is_color_renderable: true,
            is_depth_capable: false,
        }
    }

    fn pixel_format() -> (format: PixelFormat) {
        PixelFormat {
            layout: PixelLayout::RGBA8UI,
            is_color_renderable: true,
            is_depth_capable: false,
        }
    }
}

impl ColorPixel for RGBA8UI {
    proof fn color_is_not_depth() {
    }
}

impl RenderablePixel for RGBA8UI {
    proof fn renderable_as_color_or_depth() {
    }
}

/// One 16-bit floating channel: red.
#[derive(Copy, Clone, Debug)]
pub struct R16F;

impl Pixel for R16F {
    open spec fn spec_pixel_format() -> PixelFormat {
        PixelFormat {
            layout: PixelLayout::R16F,
            is_color_renderable: true,
            is_depth_capable: false,
        }
    }

    fn pixel_format() -> (format: PixelFormat) {
        PixelFormat {
            layout: PixelLayout::R16F,
            is_color_renderable: true,
            is_depth_capable: false,
        }
    }
}

impl ColorPixel for R16F {
    proof fn color_is_not_depth() {
    }
}

impl RenderablePixel for R16F {
    proof fn renderable_as_color_or_depth() {
    }
}

/// Four 32-bit floating channels: red, green, blue, alpha.
#[derive(Copy, Clone, Debug)]
pub struct RGBA32F;

impl Pixel for RGBA32F {
    open spec fn spec_pixel_format() -> PixelFormat {
        PixelFormat {
            layout: PixelLayout::RGBA32F,
            is_color_renderable: true,
            is_depth_capable: false,
        }
    }

    fn pixel_format() -> (format: PixelFormat) {
        PixelFormat {
            layout: PixelLayout::RGBA32F,
            is_color_renderable: true,
            is_depth_capable: false,
        }
    }
}

impl ColorPixel for RGBA32F {
    proof fn color_is_not_depth() {
    }
}

impl RenderablePixel for RGBA32F {
    proof fn renderable_as_color_or_depth() {
    }
}

/// Three 9-bit floating channels that share a 5-bit exponent. It is a color
/// format that cannot be rendered to.
#[derive(Copy, Clone, Debug)]
pub struct RGB9E5;

impl Pixel for RGB9E5 {
    open spec fn spec_pixel_format() -> PixelFormat {
        PixelFormat {
            layout: PixelLayout::RGB9E5,
            is_color_renderable: false,
            is_depth_capable: false,
        }
    }

    fn pixel_format() -> (format: PixelFormat) {
        PixelFormat {
            layout: PixelLayout::RGB9E5,
            is_color_renderable: false,
            is_depth_capable: false,
        }
    }
}

impl ColorPixel for RGB9E5 {
    proof fn color_is_not_depth() {
    }
}

/// One 32-bit floating depth channel.
#[derive(Copy, Clone, Debug)]
pub struct Depth32F;

impl Pixel for Depth32F {
    open spec fn spec_pixel_format() -> PixelFormat {
        PixelFormat {
            layout: PixelLayout::Depth32F,
            is_color_renderable: false,
            is_depth_capable: true,
        }
    }

    fn pixel_format() -> (format: PixelFormat) {
        PixelFormat {
            layout: PixelLayout::Depth32F,
            is_color_renderable: false,
            is_depth_capable: true,
        }
    }
}

impl DepthPixel for Depth32F {
    proof fn depth_is_depth_capable() {
    }
}

impl RenderablePixel for Depth32F {
    proof fn renderable_as_color_or_depth() {
    }
}

} // verus!
