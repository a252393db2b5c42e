//! Rectangles on a surface.

use vstd::prelude::*;

verus! {

/// A rectangle: the position of its top left corner, and its size.
#[derive(Copy, Clone, Debug, PartialEq, Eq, Structural)]
pub struct Rect {
    pub x: i16,
    pub y: i16,
    pub w: u16,
    pub h: u16,
}

} // verus!
