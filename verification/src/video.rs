//! The value-level part of the video bindings: colours, pixel formats, flag
//! sets and surface geometry, as plain values that the caller reads from and
//! hands to the video library.

pub mod color;
pub mod flags;
pub mod info;
pub mod ll;
pub mod path;
pub mod pixel_format;
pub mod status;
pub mod surface;

pub use color::Color;
pub use color::Color::{RGB, RGBA};
pub use flags::{
    fold_flags, palette_flags, video_mode_flags, wrap_video_info_flags, Flag, PaletteType,
    SurfaceFlag, VideoFlag, VideoInfoFlag,
};
pub use info::{get_video_info, VideoInfo};
pub use pixel_format::{
    unwrap_pixel_format, wrap_palette, wrap_pixel_format, Palette, PixelFormat,
};
pub use surface::{wrap_surface, Surface};
