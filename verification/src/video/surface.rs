//! Surfaces, as the video library describes them.

use super::ll::SDL_Surface;
use crate::rect::Rect;
use vstd::prelude::*;

verus! {

/// A surface: its header as it was read from the video library, and whether
/// the surface is to be freed when its owner is done with it.
#[derive(Debug, PartialEq, Eq, Structural)]
pub struct Surface {
    pub raw: SDL_Surface,
    pub owned: bool,
}

/// The 16 low bits of a length that the video library keeps as a C `int`.
pub open spec fn low_u16(v: int) -> int {
    v % 0x1_0000
}

/// Narrows a length to 16 bits, dropping the bits above them.
fn narrow_u16(v: i32) -> (r: u16)
    ensures
        r == low_u16(v as int),
{
    assert((v as u16) == (v as int) % 0x1_0000) by (bit_vector);
    #[verifier::truncate]
    (v as u16)
}

/// A surface with the given header.
pub fn wrap_surface(raw: SDL_Surface, owned: bool) -> (surface: Surface)
    ensures
        surface == (Surface { raw, owned }),
{
    Surface { raw, owned }
}

impl Surface {
    /// The width of the surface, in pixels: the 16 low bits of the width in
    /// its header.
    pub fn get_width(&self) -> (w: u16)
        ensures
            w == low_u16(self.raw.w as int),
    {
        narrow_u16(self.raw.w)
    }

    /// The height of the surface, in pixels: the 16 low bits of the height in
    /// its header.
    pub fn get_height(&self) -> (h: u16)
        ensures
            h == low_u16(self.raw.h as int),
    {
        narrow_u16(self.raw.h)
    }

    /// The width and the height of the surface.
    pub fn get_size(&self) -> (size: (u16, u16))
        ensures
            size.0 == low_u16(self.raw.w as int),
            size.1 == low_u16(self.raw.h as int),
    {
        (self.get_width(), self.get_height())
    }

    /// The rectangle that covers the whole surface.
    pub fn get_rect(&self) -> (rect: Rect)
        ensures
            rect.x == 0,
            rect.y == 0,
            rect.w == low_u16(self.raw.w as int),
            rect.h == low_u16(self.raw.h as int),
    {
        Rect { x: 0, y: 0, w: self.get_width(), h: self.get_height() }
    }

    /// The number of bytes that the pixels of the surface take up: one row of
    /// the length of its pitch for each line of its height. There is none for
    /// a negative height, nor where the number does not fit.
    pub fn pixel_len(&self) -> (len: Option<usize>)
        ensures
            len is Some <==> 0 <= self.raw.h && self.raw.pitch * self.raw.h <= usize::MAX,
            len matches Some(n) ==> n == self.raw.pitch * self.raw.h,
    {
        if self.raw.h < 0 {
            None
        } else {
            (self.raw.pitch as usize).checked_mul(self.raw.h as usize)
        }
    }

    /// The rectangle that this surface covers when it is drawn with its top
    /// left corner at `x`, `y`.
    pub fn get_rect_at(&self, x: i16, y: i16) -> (rect: Rect)
        ensures
            rect.x == x,
            rect.y == y,
            rect.w == low_u16(self.raw.w as int),
            rect.h == low_u16(self.raw.h as int),
    {
        let (w, h) = self.get_size();
        Rect { x, y, w, h }
    }
}

/// A length that fits in 16 bits is kept as it is.
pub proof fn lemma_low_u16_small(v: int)
    requires
        0 <= v < 0x1_0000,
    ensures
        low_u16(v) == v,
{
}

} // verus!
