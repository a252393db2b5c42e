//! The video library's own records, as plain values. A field that is a
//! pointer in the video library's memory is kept here as the address it holds,
//! zero for a null pointer.

#![allow(non_camel_case_types)]
#![allow(non_snake_case)]

use crate::rect::Rect;
use cty::{c_int, uint16_t, uint32_t, uint8_t};
use vstd::prelude::*;

verus! {

/// A colour of a palette.
#[derive(Copy, Clone, Debug, PartialEq, Eq, Structural)]
pub struct SDL_Color {
    pub r: uint8_t,
    pub g: uint8_t,
    pub b: uint8_t,
    pub unused: uint8_t,
}

/// How the pixels of a surface are laid out.
#[derive(Copy, Clone, Debug, PartialEq, Eq, Structural)]
pub struct SDL_PixelFormat {
    pub palette: usize,
    pub BitsPerPixel: uint8_t,
    pub BytesPerPixel: uint8_t,
    pub Rloss: uint8_t,
    pub Gloss: uint8_t,
    pub Bloss: uint8_t,
    pub Aloss: uint8_t,
    pub Rshift: uint8_t,
    pub Gshift: uint8_t,
    pub Bshift: uint8_t,
    pub Ashift: uint8_t,
    pub Rmask: uint32_t,
    pub Gmask: uint32_t,
    pub Bmask: uint32_t,
    pub Amask: uint32_t,
    pub colorkey: uint32_t,
    pub alpha: uint8_t,
}

/// The header of a surface.
#[derive(Copy, Clone, Debug, PartialEq, Eq, Structural)]
pub struct SDL_Surface {
    pub flags: uint32_t,
    pub format: usize,
    pub w: c_int,
    pub h: c_int,
    pub pitch: uint16_t,
    pub pixels: usize,
    pub offset: c_int,
    pub clip_rect: Rect,
    pub locked: uint32_t,
    pub refcount: c_int,
}

/// What the video library reports of the display.
#[derive(Copy, Clone, Debug, PartialEq, Eq, Structural)]
pub struct SDL_VideoInfo {
    pub flags: uint32_t,
    pub video_mem: uint32_t,
    pub vfmt: usize,
    pub current_w: c_int,
    pub current_h: c_int,
}

} // verus!
