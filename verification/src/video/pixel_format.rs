//! Pixel formats and palettes.

use super::ll::SDL_PixelFormat;
use vstd::prelude::*;

verus! {

/// A palette in the video library's memory, named by its address.
#[derive(Copy, Clone, Debug, PartialEq, Eq, Structural)]
pub struct Palette {
    pub raw: usize,
}

/// How the pixels of a surface are laid out.
#[derive(Debug, PartialEq, Eq, Structural)]
pub struct PixelFormat {
    pub palette: Option<Palette>,
    pub bpp: u8,
    pub r_loss: u8,
    pub g_loss: u8,
    pub b_loss: u8,
    pub a_loss: u8,
    pub r_shift: u8,
    pub g_shift: u8,
    pub b_shift: u8,
    pub a_shift: u8,
    pub r_mask: u32,
    pub g_mask: u32,
    pub b_mask: u32,
    pub a_mask: u32,
    pub color_key: u32,
    pub alpha: u8,
}

/// The palette at an address, if the address is not null.
pub open spec fn palette_at(raw: usize) -> Option<Palette> {
    if raw == 0 {
        None
    } else {
        Some(Palette { raw })
    }
}

/// The address of a palette, null if there is none.
pub open spec fn palette_address(palette: Option<Palette>) -> usize {
    match palette {
        None => 0,
        Some(palette) => palette.raw,
    }
}

/// The pixel format that a record of the video library describes.
pub open spec fn wrapped(raw: SDL_PixelFormat) -> PixelFormat {
    PixelFormat {
        palette: palette_at(raw.palette),
        bpp: raw.BitsPerPixel,
        r_loss: raw.Rloss,
        g_loss: raw.Gloss,
        b_loss: raw.Bloss,
        a_loss: raw.Aloss,
        r_shift: raw.Rshift,
        g_shift: raw.Gshift,
        b_shift: raw.Bshift,
        a_shift: raw.Ashift,
        r_mask: raw.Rmask,
        g_mask: raw.Gmask,
        b_mask: raw.Bmask,
        a_mask: raw.Amask,
        color_key: raw.colorkey,
        alpha: raw.alpha,
    }
}

/// The record of the video library for a pixel format. The bytes of a pixel
/// are its bits divided by eight, rounded down.
pub open spec fn unwrapped(fmt: PixelFormat) -> SDL_PixelFormat {
    SDL_PixelFormat {
        palette: palette_address(fmt.palette),
        BitsPerPixel: fmt.bpp,
        BytesPerPixel: fmt.bpp / 8,
        Rloss: fmt.r_loss,
        Gloss: fmt.g_loss,
        Bloss: fmt.b_loss,
        Aloss: fmt.a_loss,
        Rshift: fmt.r_shift,
        Gshift: fmt.g_shift,
        Bshift: fmt.b_shift,
        Ashift: fmt.a_shift,
        Rmask: fmt.r_mask,
        Gmask: fmt.g_mask,
        Bmask: fmt.b_mask,
        Amask: fmt.a_mask,
        colorkey: fmt.color_key,
        alpha: fmt.alpha,
    }
}

/// Wraps the address of a palette, unless it is null.
pub fn wrap_palette(palette: usize) -> (r: Option<Palette>)
    ensures
        r == palette_at(palette),
{
    if palette == 0 {
        None
    } else {
        Some(Palette { raw: palette })
    }
}

/// Reads a pixel format out of a record of the video library.
pub fn wrap_pixel_format(raw: &SDL_PixelFormat) -> (fmt: PixelFormat)
    ensures
        fmt == wrapped(*raw),
{
    PixelFormat {
        palette: wrap_palette(raw.palette),
        bpp: raw.BitsPerPixel,
        r_loss: raw.Rloss,
        g_loss: raw.Gloss,
        b_loss: raw.Bloss,
        a_loss: raw.Aloss,
        r_shift: raw.Rshift,
        g_shift: raw.Gshift,
        b_shift: raw.Bshift,
        a_shift: raw.Ashift,
        r_mask: raw.Rmask,
        g_mask: raw.Gmask,
        b_mask: raw.Bmask,
        a_mask: raw.Amask,
        color_key: raw.colorkey,
        alpha: raw.alpha,
    }
}

/// Writes a pixel format as a record of the video library.
pub fn unwrap_pixel_format(fmt: &PixelFormat) -> (raw: SDL_PixelFormat)
    ensures
        raw == unwrapped(*fmt),
{
    SDL_PixelFormat {
        palette: match fmt.palette {
            None => 0,
            Some(palette) => palette.raw,
        },
        BitsPerPixel: fmt.bpp,
        BytesPerPixel: fmt.bpp / 8,
        Rloss: fmt.r_loss,
        Gloss: fmt.g_loss,
        Bloss: fmt.b_loss,
        Aloss: fmt.a_loss,
        Rshift: fmt.r_shift,
        Gshift: fmt.g_shift,
        Bshift: fmt.b_shift,
        Ashift: fmt.a_shift,
        Rmask: fmt.r_mask,
        Gmask: fmt.g_mask,
        Bmask: fmt.b_mask,
        Amask: fmt.a_mask,
        colorkey: fmt.color_key,
        alpha: fmt.alpha,
    }
}

/// A pixel format whose palette, if it has one, lies at an address that is
/// not null comes back unchanged when it is written as a record and read
/// again.
pub proof fn lemma_wrap_unwrap(fmt: PixelFormat)
    requires
        fmt.palette matches Some(palette) ==> palette.raw != 0,
    ensures
        wrapped(unwrapped(fmt)) == fmt,
{
}

/// A record comes back unchanged when it is read and written again exactly
/// if its bytes per pixel are its bits per pixel divided by eight.
pub proof fn lemma_unwrap_wrap(raw: SDL_PixelFormat)
    ensures
        unwrapped(wrapped(raw)) == raw <==> raw.BytesPerPixel == raw.BitsPerPixel / 8,
{
}

} // verus!
