//! What the video library's return codes mean.

use cty::c_int;
use vstd::prelude::*;

verus! {

/// Whether a call that returns zero on success has succeeded.
pub fn succeeded(code: c_int) -> (ok: bool)
    ensures
        ok == (code == 0),
{
    code == 0
}

/// Whether a call that sets colours has set all of them: it then returns one.
pub fn colors_set(code: c_int) -> (ok: bool)
    ensures
        ok == (code == 1),
{
    code == 1
}

/// Whether a call that sets the gamma has succeeded: it returns -1 when it
/// has not.
pub fn gamma_set(code: c_int) -> (ok: bool)
    ensures
        ok == (code != -1),
{
    code != -1
}

/// The colour depth that the video library offers for a video mode: the
/// answer to the question whether the mode is supported, in which zero says
/// that it is not.
pub fn mode_depth(answer: c_int) -> (bpp: Option<isize>)
    ensures
        bpp is Some <==> answer != 0,
        bpp matches Some(depth) ==> depth == answer,
{
    if answer == 0 {
        None
    } else {
        Some(answer as isize)
    }
}

} // verus!
