//! Flags, and the bit masks that sets of them make up.

use cty::c_int;
use vstd::prelude::*;

verus! {

/// A flag that stands for bits of a 32-bit mask.
pub trait Flag: Copy {
    /// The bits of this flag.
    spec fn mask(self) -> u32;

    /// The bits of this flag.
    fn bits(self) -> (b: u32)
        ensures
            b == self.mask(),
    ;
}

/// How a surface is stored and drawn.
#[derive(Copy, Clone, PartialEq, Eq, Structural)]
pub enum SurfaceFlag {
    SWSurface,
    HWSurface,
    AsyncBlit,
    SrcColorKey,
    SrcAlpha,
    RLEAccel,
}

/// How the display is set up.
#[derive(Copy, Clone, PartialEq, Eq, Structural)]
pub enum VideoFlag {
    AnyFormat,
    HWPalette,
    DoubleBuf,
    Fullscreen,
    OpenGL,
    OpenGLBlit,
    Resizable,
    NoFrame,
}

/// What the display hardware can do.
#[derive(Copy, Clone, Debug, Hash, PartialEq, Eq, Structural)]
pub enum VideoInfoFlag {
    HWAvailable,
    WMAvailable,
    BlitHW,
    BlitHWColorkey,
    BlitHWAlpha,
    BlitSW,
    BlitSWColorkey,
    BlitSWAlpha,
    BlitFill,
}

/// Which palette of a surface is meant.
#[derive(Copy, Clone)]
pub enum PaletteType {
    Logical,
    Physical,
}

impl Flag for SurfaceFlag {
    open spec fn mask(self) -> u32 {
        match self {
            SurfaceFlag::SWSurface => 0x0000_0000,
            SurfaceFlag::HWSurface => 0x0000_0001,
            SurfaceFlag::AsyncBlit => 0x0000_0004,
            SurfaceFlag::SrcColorKey => 0x0000_1000,
            SurfaceFlag::SrcAlpha => 0x0001_0000,
            SurfaceFlag::RLEAccel => 0x0000_4000,
        }
    }

    fn bits(self) -> (b: u32) {
        match self {
            SurfaceFlag::SWSurface => 0x0000_0000,
            SurfaceFlag::HWSurface => 0x0000_0001,
            SurfaceFlag::AsyncBlit => 0x0000_0004,
            SurfaceFlag::SrcColorKey => 0x0000_1000,
            SurfaceFlag::SrcAlpha => 0x0001_0000,
            SurfaceFlag::RLEAccel => 0x0000_4000,
        }
    }
}

impl Flag for VideoFlag {
    open spec fn mask(self) -> u32 {
        match self {
            VideoFlag::AnyFormat => 0x1000_0000,
            VideoFlag::HWPalette => 0x2000_0000,
            VideoFlag::DoubleBuf => 0x4000_0000,
            VideoFlag::Fullscreen => 0x8000_0000,
            VideoFlag::OpenGL => 0x0000_0002,
            VideoFlag::OpenGLBlit => 0x0000_000A,
            VideoFlag::Resizable => 0x0000_0010,
            VideoFlag::NoFrame => 0x0000_0020,
        }
    }

    fn bits(self) -> (b: u32) {
        match self {
            VideoFlag::AnyFormat => 0x1000_0000,
            VideoFlag::HWPalette => 0x2000_0000,
            VideoFlag::DoubleBuf => 0x4000_0000,
            VideoFlag::Fullscreen => 0x8000_0000,
            VideoFlag::OpenGL => 0x0000_0002,
            VideoFlag::OpenGLBlit => 0x0000_000A,
            VideoFlag::Resizable => 0x0000_0010,
            VideoFlag::NoFrame => 0x0000_0020,
        }
    }
}

impl Flag for VideoInfoFlag {
    open spec fn mask(self) -> u32 {
        match self {
            VideoInfoFlag::HWAvailable => 0x0000_0001,
            VideoInfoFlag::WMAvailable => 0x0000_0002,
            VideoInfoFlag::BlitHW => 0x0000_0200,
            VideoInfoFlag::BlitHWColorkey => 0x0000_0400,
            VideoInfoFlag::BlitHWAlpha => 0x0000_0800,
            VideoInfoFlag::BlitSW => 0x0000_1000,
            VideoInfoFlag::BlitSWColorkey => 0x0000_2000,
            VideoInfoFlag::BlitSWAlpha => 0x0000_4000,
            VideoInfoFlag::BlitFill => 0x0000_8000,
        }
    }

    fn bits(self) -> (b: u32) {
        match self {
            VideoInfoFlag::HWAvailable => 0x0000_0001,
            VideoInfoFlag::WMAvailable => 0x0000_0002,
            VideoInfoFlag::BlitHW => 0x0000_0200,
            VideoInfoFlag::BlitHWColorkey => 0x0000_0400,
            VideoInfoFlag::BlitHWAlpha => 0x0000_0800,
            VideoInfoFlag::BlitSW => 0x0000_1000,
            VideoInfoFlag::BlitSWColorkey => 0x0000_2000,
            VideoInfoFlag::BlitSWAlpha => 0x0000_4000,
            VideoInfoFlag::BlitFill => 0x0000_8000,
        }
    }
}

impl Flag for PaletteType {
    open spec fn mask(self) -> u32 {
        match self {
            PaletteType::Logical => 1,
            PaletteType::Physical => 2,
        }
    }

    fn bits(self) -> (b: u32) {
        match self {
            PaletteType::Logical => 1,
            PaletteType::Physical => 2,
        }
    }
}

/// The mask in which a bit is set exactly if some flag of the list has it.
pub open spec fn union<F: Flag>(flags: Seq<F>) -> u32
    decreases flags.len(),
{
    if flags.len() == 0 {
        0
    } else {
        union(flags.drop_last()) | flags.last().mask()
    }
}

/// Adds the bits of each flag of the list to `init`.
pub fn fold_flags<F: Flag>(init: u32, flags: &[F]) -> (mask: u32)
    ensures
        mask == init | union(flags@),
{
    let mut mask: u32 = init;
    let mut i: usize = 0;
    assert(init | 0 == init) by (bit_vector);
    while i < flags.len()
        invariant
            i <= flags.len(),
            mask == init | union(flags@.take(i as int)),
        decreases flags.len() - i,
    {
        let bits: u32 = flags[i].bits();
        proof {
            let before = flags@.take(i as int);
            let now = flags@.take(i + 1);
            assert(now.drop_last() =~= before);
            let u: u32 = union(before);
            assert((init | u) | bits == init | (u | bits)) by (bit_vector);
        }
        mask = mask | bits;
        i += 1;
    }
    assert(flags@.take(i as int) =~= flags@);
    mask
}

/// The mask for a video mode: the bits of the surface flags and those of the
/// video flags.
pub fn video_mode_flags(surface_flags: &[SurfaceFlag], video_flags: &[VideoFlag]) -> (mask: u32)
    ensures
        mask == union(surface_flags@) | union(video_flags@),
{
    let flags: u32 = fold_flags(0, surface_flags);
    proof {
        let u: u32 = union(surface_flags@);
        assert(0 | u == u) by (bit_vector);
    }
    fold_flags(flags, video_flags)
}

/// The mask that names the palettes of the list.
pub fn palette_flags(palettes: &[PaletteType]) -> (mask: c_int)
    ensures
        mask == union(palettes@),
        0 <= mask <= 3,
{
    let mask: u32 = fold_flags(0, palettes);
    proof {
        let u: u32 = union(palettes@);
        assert(0 | u == u) by (bit_vector);
        lemma_palette_union_small(palettes@);
    }
    mask as c_int
}

/// A set of palettes needs no more than the two lowest bits.
pub proof fn lemma_palette_union_small(palettes: Seq<PaletteType>)
    ensures
        union(palettes) <= 3,
    decreases palettes.len(),
{
    if palettes.len() > 0 {
        lemma_palette_union_small(palettes.drop_last());
        let u: u32 = union(palettes.drop_last());
        let m: u32 = palettes.last().mask();
        assert(u <= 3 && m <= 3 ==> u | m <= 3) by (bit_vector);
    }
}

/// A bit is set in the mask of a list exactly if some flag of the list has it.
pub proof fn lemma_union_has_bit<F: Flag>(flags: Seq<F>, bit: u32)
    ensures
        union(flags) & bit != 0 <==> exists|i: int|
            0 <= i < flags.len() && (#[trigger] flags[i]).mask() & bit != 0,
    decreases flags.len(),
{
    if flags.len() == 0 {
        assert(0u32 & bit == 0) by (bit_vector);
    } else {
        let front = flags.drop_last();
        lemma_union_has_bit(front, bit);
        let u: u32 = union(front);
        let m: u32 = flags.last().mask();
        assert((u | m) & bit != 0 <==> (u & bit != 0 || m & bit != 0)) by (bit_vector);
        if union(flags) & bit != 0 {
            if u & bit != 0 {
                let i = choose|i: int| 0 <= i < front.len() && (#[trigger] front[i]).mask() & bit != 0;
                assert(flags[i] == front[i]);
            } else {
                assert(flags[flags.len() - 1].mask() & bit != 0);
            }
        }
        if exists|i: int| 0 <= i < flags.len() && (#[trigger] flags[i]).mask() & bit != 0 {
            let i = choose|i: int| 0 <= i < flags.len() && (#[trigger] flags[i]).mask() & bit != 0;
            if i < front.len() {
                assert(front[i] == flags[i]);
            }
        }
    }
}

/// The mask of two lists put together is made of the masks of each.
pub proof fn lemma_union_of_concat<F: Flag>(a: Seq<F>, b: Seq<F>)
    ensures
        union(a + b) == union(a) | union(b),
    decreases b.len(),
{
    if b.len() == 0 {
        assert(a + b =~= a);
        let u: u32 = union(a);
        assert(u | 0 == u) by (bit_vector);
    } else {
        assert((a + b).drop_last() =~= a + b.drop_last());
        lemma_union_of_concat(a, b.drop_last());
        let x: u32 = union(a);
        let y: u32 = union(b.drop_last());
        let m: u32 = b.last().mask();
        assert((x | y) | m == x | (y | m)) by (bit_vector);
    }
}

/// Every flag that the display can report, in the order in which they are
/// read out of a mask.
pub open spec fn all_video_info_flags() -> Seq<VideoInfoFlag> {
    seq![
        VideoInfoFlag::HWAvailable,
        VideoInfoFlag::WMAvailable,
        VideoInfoFlag::BlitHW,
        VideoInfoFlag::BlitHWColorkey,
        VideoInfoFlag::BlitHWAlpha,
        VideoInfoFlag::BlitSW,
        VideoInfoFlag::BlitSWColorkey,
        VideoInfoFlag::BlitSWAlpha,
        VideoInfoFlag::BlitFill,
    ]
}

/// The flags of `all_video_info_flags` that are set in `bitflags`, in that order.
pub open spec fn video_info_flags_of(bitflags: u32) -> Seq<VideoInfoFlag> {
    all_video_info_flags().filter(|flag: VideoInfoFlag| bitflags & flag.mask() != 0)
}

/// Reads the flags that are set in a mask, in the order of
/// `all_video_info_flags`.
pub fn wrap_video_info_flags(bitflags: u32) -> (flags: Vec<VideoInfoFlag>)
    ensures
        flags@ == video_info_flags_of(bitflags),
{
    let all = [
        VideoInfoFlag::HWAvailable,
        VideoInfoFlag::WMAvailable,
        VideoInfoFlag::BlitHW,
        VideoInfoFlag::BlitHWColorkey,
        VideoInfoFlag::BlitHWAlpha,
        VideoInfoFlag::BlitSW,
        VideoInfoFlag::BlitSWColorkey,
        VideoInfoFlag::BlitSWAlpha,
        VideoInfoFlag::BlitFill,
    ];
    assert(all@ =~= all_video_info_flags());
    let ghost set = |flag: VideoInfoFlag| bitflags & flag.mask() != 0;
    let mut flags: Vec<VideoInfoFlag> = Vec::new();
    let mut i: usize = 0;
    proof {
        reveal_with_fuel(Seq::filter, 1);
        assert(all@.take(0).filter(set) =~= Seq::<VideoInfoFlag>::empty());
    }
    while i < 9
        invariant
            i <= 9,
            all@ == all_video_info_flags(),
            set == |flag: VideoInfoFlag| bitflags & flag.mask() != 0,
            flags@ == all@.take(i as int).filter(set),
        decreases 9 - i,
    {
        let flag = all[i];
        proof {
            reveal_with_fuel(Seq::filter, 2);
            assert(all@.take(i + 1).drop_last() =~= all@.take(i as int));
        }
        if bitflags & flag.bits() != 0 {
            flags.push(flag);
        }
        i += 1;
    }
    assert(all@.take(9) =~= all@);
    flags
}

/// A flag is read out of a mask exactly if one of its bits is set there.
pub proof fn lemma_video_info_flag_read(bitflags: u32, flag: VideoInfoFlag)
    ensures
        video_info_flags_of(bitflags).contains(flag) <==> bitflags & flag.mask() != 0,
{
    let all = all_video_info_flags();
    let set = |f: VideoInfoFlag| bitflags & f.mask() != 0;
    let read = all.filter(set);
    if bitflags & flag.mask() != 0 {
        let i = choose|i: int| 0 <= i < all.len() && all[i] == flag;
        assert(set(all[i]));
        all.lemma_filter_contains(set, i);
    }
    if read.contains(flag) {
        let i = choose|i: int| 0 <= i < read.len() && read[i] == flag;
        all.lemma_filter_pred(set, i);
    }
}

/// Adding a flag at the end of a list adds its bits to the mask.
pub proof fn lemma_union_push<F: Flag>(flags: Seq<F>, flag: F)
    ensures
        union(flags.push(flag)) == union(flags) | flag.mask(),
{
    assert(flags.push(flag).drop_last() =~= flags);
}

/// The bits of all the flags that the display can report.
pub const VIDEO_INFO_MASK: u32 = 0x0000_FE03;

/// `VIDEO_INFO_MASK` is the mask of `all_video_info_flags`.
pub proof fn lemma_video_info_mask()
    ensures
        union(all_video_info_flags()) == VIDEO_INFO_MASK,
{
    let s0 = Seq::<VideoInfoFlag>::empty();
    let s1 = s0.push(VideoInfoFlag::HWAvailable);
    let s2 = s1.push(VideoInfoFlag::WMAvailable);
    let s3 = s2.push(VideoInfoFlag::BlitHW);
    let s4 = s3.push(VideoInfoFlag::BlitHWColorkey);
    let s5 = s4.push(VideoInfoFlag::BlitHWAlpha);
    let s6 = s5.push(VideoInfoFlag::BlitSW);
    let s7 = s6.push(VideoInfoFlag::BlitSWColorkey);
    let s8 = s7.push(VideoInfoFlag::BlitSWAlpha);
    let s9 = s8.push(VideoInfoFlag::BlitFill);
    lemma_union_push(s0, VideoInfoFlag::HWAvailable);
    lemma_union_push(s1, VideoInfoFlag::WMAvailable);
    lemma_union_push(s2, VideoInfoFlag::BlitHW);
    lemma_union_push(s3, VideoInfoFlag::BlitHWColorkey);
    lemma_union_push(s4, VideoInfoFlag::BlitHWAlpha);
    lemma_union_push(s5, VideoInfoFlag::BlitSW);
    lemma_union_push(s6, VideoInfoFlag::BlitSWColorkey);
    lemma_union_push(s7, VideoInfoFlag::BlitSWAlpha);
    lemma_union_push(s8, VideoInfoFlag::BlitFill);
    assert(0u32 | 0x0001 == 0x0001) by (bit_vector);
    assert(0x0001u32 | 0x0002 == 0x0003) by (bit_vector);
    assert(0x0003u32 | 0x0200 == 0x0203) by (bit_vector);
    assert(0x0203u32 | 0x0400 == 0x0603) by (bit_vector);
    assert(0x0603u32 | 0x0800 == 0x0E03) by (bit_vector);
    assert(0x0E03u32 | 0x1000 == 0x1E03) by (bit_vector);
    assert(0x1E03u32 | 0x2000 == 0x3E03) by (bit_vector);
    assert(0x3E03u32 | 0x4000 == 0x7E03) by (bit_vector);
    assert(0x7E03u32 | 0x8000 == 0xFE03) by (bit_vector);
    assert(s9 =~= all_video_info_flags());
}

/// What is read out of the first `n` flags that the display can report is the
/// part of the mask that those flags cover.
proof fn lemma_read_prefix(bitflags: u32, n: int)
    requires
        0 <= n <= all_video_info_flags().len(),
    ensures
        union(
            all_video_info_flags().take(n).filter(
                |flag: VideoInfoFlag| bitflags & flag.mask() != 0,
            ),
        ) == bitflags & union(all_video_info_flags().take(n)),
    decreases n,
{
    let all = all_video_info_flags();
    let set = |flag: VideoInfoFlag| bitflags & flag.mask() != 0;
    reveal_with_fuel(Seq::filter, 2);
    if n == 0 {
        assert(all.take(0).filter(set) =~= Seq::<VideoInfoFlag>::empty());
        assert(bitflags & 0 == 0) by (bit_vector);
    } else {
        lemma_read_prefix(bitflags, n - 1);
        let front = all.take(n - 1);
        assert(all.take(n).drop_last() =~= front);
        let flag = all[n - 1];
        let m: u32 = flag.mask();
        let u: u32 = union(front);
        let r: u32 = union(front.filter(set));
        assert(m == 0x0001 || m == 0x0002 || m == 0x0200 || m == 0x0400 || m == 0x0800 || m
            == 0x1000 || m == 0x2000 || m == 0x4000 || m == 0x8000);
        if set(flag) {
            lemma_union_push(front.filter(set), flag);
            assert((bitflags & u) | m == bitflags & (u | m)) by (bit_vector)
                requires
                    bitflags & m != 0,
                    m == 0x0001 || m == 0x0002 || m == 0x0200 || m == 0x0400 || m == 0x0800 || m
                        == 0x1000 || m == 0x2000 || m == 0x4000 || m == 0x8000,
            ;
        } else {
            assert(bitflags & u == bitflags & (u | m)) by (bit_vector)
                requires
                    bitflags & m == 0,
            ;
        }
    }
}

/// The flags read out of a mask make up the mask again, as far as its bits
/// belong to flags that the display can report.
pub proof fn lemma_video_info_round_trip(bitflags: u32)
    ensures
        union(video_info_flags_of(bitflags)) == bitflags & VIDEO_INFO_MASK,
{
    let all = all_video_info_flags();
    lemma_read_prefix(bitflags, 9);
    assert(all.take(9) =~= all);
    lemma_video_info_mask();
}

} // verus!
