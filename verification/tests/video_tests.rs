use ndless::video::flags::VIDEO_INFO_MASK;
use ndless::video::ll::{SDL_Color, SDL_PixelFormat, SDL_Surface, SDL_VideoInfo};
use ndless::video::path::{c_string, open_mode};
use ndless::video::status::{colors_set, gamma_set, mode_depth, succeeded};
use ndless::video::color::to_structs;
use ndless::video::{
    fold_flags, get_video_info, palette_flags, unwrap_pixel_format, video_mode_flags,
    wrap_palette, wrap_pixel_format, wrap_surface, wrap_video_info_flags, Color, Flag, Palette,
    PaletteType, PixelFormat, SurfaceFlag, VideoFlag, VideoInfoFlag, RGB, RGBA,
};
use ndless::Rect;

fn header(w: i32, h: i32) -> SDL_Surface {
    SDL_Surface {
        flags: 0,
        format: 0x1000,
        w,
        h,
        pitch: 640,
        pixels: 0x2000,
        offset: 0,
        clip_rect: Rect { x: 0, y: 0, w: 0, h: 0 },
        locked: 0,
        refcount: 1,
    }
}

fn raw_format() -> SDL_PixelFormat {
    SDL_PixelFormat {
        palette: 0,
        BitsPerPixel: 16,
        BytesPerPixel: 2,
        Rloss: 3,
        Gloss: 2,
        Bloss: 3,
        Aloss: 8,
        Rshift: 11,
        Gshift: 5,
        Bshift: 0,
        Ashift: 0,
        Rmask: 0xF800,
        Gmask: 0x07E0,
        Bmask: 0x001F,
        Amask: 0,
        colorkey: 7,
        alpha: 255,
    }
}

fn format() -> PixelFormat {
    PixelFormat {
        palette: None,
        bpp: 16,
        r_loss: 3,
        g_loss: 2,
        b_loss: 3,
        a_loss: 8,
        r_shift: 11,
        g_shift: 5,
        b_shift: 0,
        a_shift: 0,
        r_mask: 0xF800,
        g_mask: 0x07E0,
        b_mask: 0x001F,
        a_mask: 0,
        color_key: 7,
        alpha: 255,
    }
}

#[test]
fn color_from_struct_drops_the_unused_byte() {
    let entry = SDL_Color { r: 1, g: 2, b: 3, unused: 9 };
    assert_eq!(Color::from_struct(entry), RGB(1, 2, 3));
}

#[test]
fn color_to_struct_drops_alpha() {
    assert_eq!(RGB(10, 20, 30).to_struct(), SDL_Color { r: 10, g: 20, b: 30, unused: 0 });
    assert_eq!(RGBA(10, 20, 30, 40).to_struct(), SDL_Color { r: 10, g: 20, b: 30, unused: 0 });
}

#[test]
fn color_struct_round_trip() {
    assert_eq!(Color::from_struct(RGB(4, 5, 6).to_struct()), RGB(4, 5, 6));
    assert_eq!(Color::from_struct(RGBA(4, 5, 6, 7).to_struct()), RGB(4, 5, 6));
}

#[test]
fn colors_to_structs_keeps_the_order() {
    let entries = to_structs(&[RGB(1, 2, 3), RGBA(4, 5, 6, 7)]);
    assert_eq!(
        entries,
        vec![SDL_Color { r: 1, g: 2, b: 3, unused: 0 }, SDL_Color { r: 4, g: 5, b: 6, unused: 0 }]
    );
    assert!(to_structs(&[]).is_empty());
}

#[test]
fn surface_flag_bits() {
    assert_eq!(SurfaceFlag::SWSurface.bits(), 0x0000_0000);
    assert_eq!(SurfaceFlag::HWSurface.bits(), 0x0000_0001);
    assert_eq!(SurfaceFlag::AsyncBlit.bits(), 0x0000_0004);
    assert_eq!(SurfaceFlag::SrcColorKey.bits(), 0x0000_1000);
    assert_eq!(SurfaceFlag::SrcAlpha.bits(), 0x0001_0000);
    assert_eq!(SurfaceFlag::RLEAccel.bits(), 0x0000_4000);
}

#[test]
fn video_flag_bits() {
    assert_eq!(VideoFlag::AnyFormat.bits(), 0x1000_0000);
    assert_eq!(VideoFlag::HWPalette.bits(), 0x2000_0000);
    assert_eq!(VideoFlag::DoubleBuf.bits(), 0x4000_0000);
    assert_eq!(VideoFlag::Fullscreen.bits(), 0x8000_0000);
    assert_eq!(VideoFlag::OpenGL.bits(), 0x0000_0002);
    assert_eq!(VideoFlag::OpenGLBlit.bits(), 0x0000_000A);
    assert_eq!(VideoFlag::Resizable.bits(), 0x0000_0010);
    assert_eq!(VideoFlag::NoFrame.bits(), 0x0000_0020);
}

#[test]
fn video_info_flag_bits() {
    assert_eq!(VideoInfoFlag::HWAvailable.bits(), 0x0000_0001);
    assert_eq!(VideoInfoFlag::WMAvailable.bits(), 0x0000_0002);
    assert_eq!(VideoInfoFlag::BlitHW.bits(), 0x0000_0200);
    assert_eq!(VideoInfoFlag::BlitHWColorkey.bits(), 0x0000_0400);
    assert_eq!(VideoInfoFlag::BlitHWAlpha.bits(), 0x0000_0800);
    assert_eq!(VideoInfoFlag::BlitSW.bits(), 0x0000_1000);
    assert_eq!(VideoInfoFlag::BlitSWColorkey.bits(), 0x0000_2000);
    assert_eq!(VideoInfoFlag::BlitSWAlpha.bits(), 0x0000_4000);
    assert_eq!(VideoInfoFlag::BlitFill.bits(), 0x0000_8000);
}

#[test]
fn palette_type_bits() {
    assert_eq!(PaletteType::Logical.bits(), 1);
    assert_eq!(PaletteType::Physical.bits(), 2);
}

#[test]
fn fold_flags_ors_the_bits() {
    assert_eq!(fold_flags::<SurfaceFlag>(0, &[]), 0);
    assert_eq!(fold_flags::<SurfaceFlag>(0x80, &[]), 0x80);
    assert_eq!(fold_flags(0, &[SurfaceFlag::HWSurface, SurfaceFlag::SrcAlpha]), 0x0001_0001);
    assert_eq!(
        fold_flags(0x80, &[SurfaceFlag::SrcColorKey, SurfaceFlag::SrcColorKey]),
        0x0000_1080
    );
    assert_eq!(fold_flags(0, &[VideoFlag::OpenGL, VideoFlag::OpenGLBlit]), 0x0000_000A);
}

#[test]
fn fold_flags_does_not_depend_on_the_order() {
    let there = fold_flags(0, &[SurfaceFlag::RLEAccel, SurfaceFlag::AsyncBlit]);
    let back = fold_flags(0, &[SurfaceFlag::AsyncBlit, SurfaceFlag::RLEAccel]);
    assert_eq!(there, 0x0000_4004);
    assert_eq!(there, back);
}

#[test]
fn video_mode_flags_joins_both_lists() {
    assert_eq!(video_mode_flags(&[], &[]), 0);
    assert_eq!(
        video_mode_flags(
            &[SurfaceFlag::HWSurface, SurfaceFlag::SWSurface],
            &[VideoFlag::DoubleBuf, VideoFlag::Fullscreen]
        ),
        0xC000_0001
    );
}

#[test]
fn palette_flags_names_the_palettes() {
    assert_eq!(palette_flags(&[]), 0);
    assert_eq!(palette_flags(&[PaletteType::Logical]), 1);
    assert_eq!(palette_flags(&[PaletteType::Physical]), 2);
    assert_eq!(palette_flags(&[PaletteType::Physical, PaletteType::Logical]), 3);
}

#[test]
fn wrap_video_info_flags_reads_set_bits_in_order() {
    assert_eq!(wrap_video_info_flags(0), vec![]);
    assert_eq!(
        wrap_video_info_flags(0x0000_8201),
        vec![VideoInfoFlag::HWAvailable, VideoInfoFlag::BlitHW, VideoInfoFlag::BlitFill]
    );
    assert_eq!(
        wrap_video_info_flags(0xFFFF_FFFF),
        vec![
            VideoInfoFlag::HWAvailable,
            VideoInfoFlag::WMAvailable,
            VideoInfoFlag::BlitHW,
            VideoInfoFlag::BlitHWColorkey,
            VideoInfoFlag::BlitHWAlpha,
            VideoInfoFlag::BlitSW,
            VideoInfoFlag::BlitSWColorkey,
            VideoInfoFlag::BlitSWAlpha,
            VideoInfoFlag::BlitFill,
        ]
    );
}

#[test]
fn wrap_video_info_flags_skips_bits_of_no_flag() {
    assert_eq!(wrap_video_info_flags(0x0000_01FC), vec![]);
    assert_eq!(wrap_video_info_flags(0xFFFF_0000), vec![]);
}

#[test]
fn video_info_flags_make_up_the_mask_again() {
    assert_eq!(VIDEO_INFO_MASK, 0x0000_FE03);
    for bits in [0u32, 0x0000_0003, 0x0000_1234, 0xDEAD_BEEF, 0xFFFF_FFFF] {
        let flags = wrap_video_info_flags(bits);
        assert_eq!(fold_flags(0, &flags), bits & VIDEO_INFO_MASK);
    }
}

#[test]
fn wrap_palette_is_none_for_a_null_address() {
    assert_eq!(wrap_palette(0), None);
    assert_eq!(wrap_palette(0x4000), Some(Palette { raw: 0x4000 }));
}

#[test]
fn wrap_pixel_format_copies_the_record() {
    assert_eq!(wrap_pixel_format(&raw_format()), format());
    let mut raw = raw_format();
    raw.palette = 0x4000;
    let mut expected = format();
    expected.palette = Some(Palette { raw: 0x4000 });
    assert_eq!(wrap_pixel_format(&raw), expected);
}

#[test]
fn unwrap_pixel_format_computes_bytes_per_pixel() {
    assert_eq!(unwrap_pixel_format(&format()), raw_format());
    let mut fmt = format();
    fmt.bpp = 15;
    assert_eq!(unwrap_pixel_format(&fmt).BytesPerPixel, 1);
    fmt.bpp = 7;
    assert_eq!(unwrap_pixel_format(&fmt).BytesPerPixel, 0);
    fmt.bpp = 255;
    assert_eq!(unwrap_pixel_format(&fmt).BytesPerPixel, 31);
    fmt.palette = Some(Palette { raw: 0x4000 });
    assert_eq!(unwrap_pixel_format(&fmt).palette, 0x4000);
}

#[test]
fn pixel_format_round_trip() {
    let mut fmt = format();
    fmt.palette = Some(Palette { raw: 8 });
    assert_eq!(wrap_pixel_format(&unwrap_pixel_format(&fmt)), fmt);
    let mut raw = raw_format();
    raw.BytesPerPixel = 3;
    assert_ne!(unwrap_pixel_format(&wrap_pixel_format(&raw)), raw);
}

#[test]
fn get_video_info_reads_the_record() {
    let raw = SDL_VideoInfo {
        flags: 0x0000_8001,
        video_mem: 0,
        vfmt: 0x1000,
        current_w: 320,
        current_h: 240,
    };
    let info = get_video_info(&raw, &raw_format());
    assert_eq!(info.flags, vec![VideoInfoFlag::HWAvailable, VideoInfoFlag::BlitFill]);
    assert_eq!(info.width, 320);
    assert_eq!(info.height, 240);
    assert_eq!(info.format, format());
}

#[test]
fn get_video_info_keeps_negative_sizes() {
    let raw = SDL_VideoInfo { flags: 0, video_mem: 0, vfmt: 0, current_w: -1, current_h: i32::MIN };
    let info = get_video_info(&raw, &raw_format());
    assert_eq!(info.width, -1);
    assert_eq!(info.height, -2_147_483_648);
}

#[test]
fn surface_size_and_rect() {
    let surface = wrap_surface(header(320, 240), true);
    assert!(surface.owned);
    assert_eq!(surface.raw, header(320, 240));
    assert_eq!(surface.get_width(), 320);
    assert_eq!(surface.get_height(), 240);
    assert_eq!(surface.get_size(), (320, 240));
    assert_eq!(surface.get_rect(), Rect { x: 0, y: 0, w: 320, h: 240 });
    assert_eq!(surface.get_rect_at(-5, 7), Rect { x: -5, y: 7, w: 320, h: 240 });
}

#[test]
fn surface_size_keeps_the_low_sixteen_bits() {
    let surface = wrap_surface(header(70_000, -1), false);
    assert_eq!(surface.get_width(), 4_464);
    assert_eq!(surface.get_height(), 65_535);
    assert_eq!(wrap_surface(header(65_536, 65_535), false).get_size(), (0, 65_535));
}

#[test]
fn return_codes() {
    assert!(succeeded(0));
    assert!(!succeeded(-1));
    assert!(!succeeded(1));
    assert!(colors_set(1));
    assert!(!colors_set(0));
    assert!(gamma_set(0));
    assert!(!gamma_set(-1));
    assert_eq!(mode_depth(0), None);
    assert_eq!(mode_depth(16), Some(16));
    assert_eq!(mode_depth(-8), Some(-8));
}

#[test]
fn c_string_appends_a_zero_byte() {
    assert_eq!(c_string("foo"), Ok(vec![b'f', b'o', b'o', 0]));
    assert_eq!(c_string(""), Ok(vec![0]));
    assert_eq!(c_string("h\u{e9}"), Ok(vec![b'h', 0xC3, 0xA9, 0]));
}

#[test]
fn c_string_reports_the_first_zero_byte() {
    assert_eq!(c_string("foo\0bar"), Err(3));
    assert_eq!(c_string("foo bar\0"), Err(7));
    assert_eq!(c_string("\0a\0"), Err(0));
}

#[test]
fn open_mode_is_a_c_string() {
    assert_eq!(open_mode(false), vec![b'r', b'b', 0]);
    assert_eq!(open_mode(true), vec![b'w', b'b', 0]);
}

#[test]
fn surface_pixel_len_is_pitch_times_height() {
    assert_eq!(wrap_surface(header(320, 240), false).pixel_len(), Some(640 * 240));
    assert_eq!(wrap_surface(header(320, 0), false).pixel_len(), Some(0));
    assert_eq!(wrap_surface(header(320, -1), false).pixel_len(), None);
}
