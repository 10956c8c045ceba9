//! Textures: their formats, and what the renderer remembers of the ones it
//! has made in the driver.

use vstd::prelude::*;
use crate::renderer::constants;

verus! {

/// The pixel formats of the renderer's textures: one to four channels of eight
/// bits each.
#[derive(Clone, Copy, Debug, PartialEq, Eq)]
pub enum TextureFmt {
    R8U,
    RG8U,
    RGB8U,
    RGBA8U,
}

impl TextureFmt {
    /// The driver's enumerant for the channels of the format.
    pub open spec fn gl_format_spec(self) -> u32 {
        match self {
            TextureFmt::R8U => 0x1903,
            TextureFmt::RG8U => 0x8227,
            TextureFmt::RGB8U => 0x1907,
            TextureFmt::RGBA8U => 0x1908,
        }
    }

    /// The number of bytes that one pixel takes.
    pub open spec fn gl_bpp_spec(self) -> int {
        match self {
            TextureFmt::R8U => 1,
            TextureFmt::RG8U => 2,
            TextureFmt::RGB8U => 3,
            TextureFmt::RGBA8U => 4,
        }
    }

    /// The driver's enumerant for the channels of the format: `RED`, `RG`,
    /// `RGB` or `RGBA`.
    pub fn gl_format(&self) -> (r: u32)
        ensures
            r == self.gl_format_spec(),
    {
        match self {
            TextureFmt::R8U => constants::red(),
            TextureFmt::RG8U => constants::rg(),
            TextureFmt::RGB8U => constants::rgb(),
            TextureFmt::RGBA8U => constants::rgba(),
        }
    }

    /// The driver's enumerant for the type of one channel, which is
    /// `UNSIGNED_BYTE` for every format.
    pub fn gl_type(&self) -> (r: u32)
        ensures
            r == 0x1401u32,
    {
        constants::unsigned_byte()
    }

    /// The number of bytes that one pixel takes.
    pub fn gl_bpp(&self) -> (r: usize)
        ensures
            r == self.gl_bpp_spec(),
    {
        match self {
            TextureFmt::R8U => 1,
            TextureFmt::RG8U => 2,
            TextureFmt::RGB8U => 3,
            TextureFmt::RGBA8U => 4,
        }
    }
}

/// The channels of a decoded image, whatever their depth.
#[derive(Clone, Copy, Debug, PartialEq, Eq)]
pub enum PixelLayout {
    Gray,
    GrayAlpha,
    Rgb,
    Rgba,
    /// Any layout that the renderer has no texture format for.
    Other,
}

/// The driver's enumerant for an image's channels, and `NONE` for a layout
/// that cannot become a texture.
pub open spec fn image_to_gl_fmt_spec(ty: PixelLayout) -> u32 {
    match ty {
        PixelLayout::Gray => 0x1903,
        PixelLayout::Rgb => 0x1907,
        PixelLayout::GrayAlpha => 0x8227,
        PixelLayout::Rgba => 0x1908,
        PixelLayout::Other => 0,
    }
}

/// The texture format for an image's channels. A layout without a format of
/// its own is given the one-channel format.
pub open spec fn image_to_radar_fmt_spec(ty: PixelLayout) -> TextureFmt {
    match ty {
        PixelLayout::Gray => TextureFmt::R8U,
        PixelLayout::Rgb => TextureFmt::RGB8U,
        PixelLayout::GrayAlpha => TextureFmt::RG8U,
        PixelLayout::Rgba => TextureFmt::RGBA8U,
        PixelLayout::Other => TextureFmt::R8U,
    }
}

/// The driver's enumerant for an image's channels: `RED`, `RG`, `RGB` or
/// `RGBA`, and `NONE` for a layout that cannot become a texture.
pub fn image_to_gl_fmt(ty: PixelLayout) -> (r: u32)
    ensures
        r == image_to_gl_fmt_spec(ty),
        r == 0 <==> ty == PixelLayout::Other,
{
    match ty {
        PixelLayout::Gray => constants::red(),
        PixelLayout::Rgb => constants::rgb(),
        PixelLayout::GrayAlpha => constants::rg(),
        PixelLayout::Rgba => constants::rgba(),
        PixelLayout::Other => constants::none(),
    }
}

/// The texture format for an image's channels.
pub fn image_to_radar_fmt(ty: PixelLayout) -> (r: TextureFmt)
    ensures
        r == image_to_radar_fmt_spec(ty),
{
    match ty {
        PixelLayout::Gray => TextureFmt::R8U,
        PixelLayout::Rgb => TextureFmt::RGB8U,
        PixelLayout::GrayAlpha => TextureFmt::RG8U,
        PixelLayout::Rgba => TextureFmt::RGBA8U,
        PixelLayout::Other => TextureFmt::R8U,
    }
}

/// The extensions of the image files that can become textures.
pub fn valid_img_ext() -> (r: [&'static str; 5])
    ensures
        r@ == seq!["png", "jpeg", "jpg", "gif", "bmp"],
{
    let r = ["png", "jpeg", "jpg", "gif", "bmp"];
    assert(r@ =~= seq!["png", "jpeg", "jpg", "gif", "bmp"]);
    r
}

/// A texture: its name in the driver, its width and height in pixels, and its
/// format.
pub struct Texture {
    pub id: u32,
    pub size: (u32, u32),
    pub fmt: TextureFmt,
}

impl Texture {
    /// The record of the texture named `id` that was filled from a decoded
    /// image of the given size and channels. An image whose channels have no
    /// texture format cannot be uploaded, and there is no texture to record
    /// for it.
    pub fn from_image(id: u32, size: (u32, u32), ty: PixelLayout) -> (r: Texture)
        requires
            ty != PixelLayout::Other,
        ensures
            r == (Texture { id, size, fmt: image_to_radar_fmt_spec(ty) }),
    {
        Texture { id, size, fmt: image_to_radar_fmt(ty) }
    }

    /// The record of the texture named `id` that was made of `size` pixels
    /// of zeros.
    pub fn from_empty(id: u32, size: (u32, u32), fmt: TextureFmt) -> (r: Texture)
        ensures
            r == (Texture { id, size, fmt }),
    {
        Texture { id, size, fmt }
    }

    /// The number of bytes in the pixels of a texture of the given size and
    /// format, or `None` where that number is beyond what the machine can
    /// address.
    pub fn byte_len(size: (u32, u32), fmt: TextureFmt) -> (r: Option<usize>)
        ensures
            r == (if fmt.gl_bpp_spec() * size.0 * size.1 <= usize::MAX {
                Some((fmt.gl_bpp_spec() * size.0 * size.1) as usize)
            } else {
                None
            }),
    {
        let bpp = fmt.gl_bpp() as u128;
        let width = size.0 as u128;
        let height = size.1 as u128;
        assert(bpp * width <= 4 * 0xffff_ffff && bpp * width * height <= 4 * 0xffff_ffff
            * 0xffff_ffff) by (nonlinear_arith)
            requires
                0 <= bpp <= 4,
                0 <= width <= 0xffff_ffff,
                0 <= height <= 0xffff_ffff,
        ;
        let total: u128 = bpp * width * height;
        if total <= usize::MAX as u128 {
            Some(total as usize)
        } else {
            None
        }
    }
}

} // verus!
