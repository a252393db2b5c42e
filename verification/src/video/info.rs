//! What the video library reports of the display.

use super::flags::{video_info_flags_of, wrap_video_info_flags, VideoInfoFlag};
use super::ll::{SDL_PixelFormat, SDL_VideoInfo};
use super::pixel_format::{wrap_pixel_format, wrapped, PixelFormat};
use vstd::prelude::*;

verus! {

/// The display: what its hardware can do, its size in pixels, and its pixel
/// format.
#[derive(Debug, PartialEq)]
pub struct VideoInfo {
    pub flags: Vec<VideoInfoFlag>,
    pub width: isize,
    pub height: isize,
    pub format: PixelFormat,
}

/// Reads the display's description out of the video library's record of it
/// and the record of the pixel format that it points to.
pub fn get_video_info(raw: &SDL_VideoInfo, vfmt: &SDL_PixelFormat) -> (info: VideoInfo)
    ensures
        info.flags@ == video_info_flags_of(raw.flags),
        info.width == raw.current_w,
        info.height == raw.current_h,
        info.format == wrapped(*vfmt),
{
    VideoInfo {
        flags: wrap_video_info_flags(raw.flags),
        width: raw.current_w as isize,
        height: raw.current_h as isize,
        format: wrap_pixel_format(vfmt),
    }
}

} // verus!
