//! What a presentation surface reports, and the selection rules the renderer
//! applies to it: the image extent, the present mode and the surface format.

use vstd::prelude::*;

verus! {

/// Width and height of a surface or image, in pixels.
#[derive(Clone, Copy, PartialEq, Eq, Structural, Debug)]
pub struct Extent2D {
    pub width: u32,
    pub height: u32,
}

/// Width, height and depth of a texture, in texels.
#[derive(Clone, Copy, PartialEq, Eq, Structural, Debug)]
pub struct Extent3D {
    pub width: u32,
    pub height: u32,
    pub depth: u32,
}

/// A surface reports this width as its current extent when the window system
/// leaves the choice of extent to the swapchain.
pub const EXTENT_UNDEFINED: u32 = 0xffff_ffff;

/// The limits a surface reports for swapchains built on it.
#[derive(Clone, Copy, PartialEq, Eq, Structural, Debug)]
pub struct SurfaceCapabilities {
    pub min_image_count: u32,
    pub current_extent: Extent2D,
    pub min_image_extent: Extent2D,
    pub max_image_extent: Extent2D,
}

/// How the presentation engine paces frames.
#[derive(Clone, Copy, PartialEq, Eq, Structural, Debug)]
pub enum PresentMode {
    Immediate,
    Mailbox,
    Fifo,
    FifoRelaxed,
    /// A mode this renderer expresses no preference about, carried by its raw
    /// API value.
    Other(i32),
}

/// A pixel format paired with the colour space the surface presents it in,
/// both carried by their raw API values.
#[derive(Clone, Copy, PartialEq, Eq, Structural, Debug)]
pub struct SurfaceFormat {
    pub format: i32,
    pub color_space: i32,
}

/// Raw API value of the 8-bit BGRA unsigned-normalised pixel format.
pub const FORMAT_B8G8R8A8_UNORM: i32 = 44;

/// Raw API value of the non-linear sRGB colour space.
pub const COLOR_SPACE_SRGB_NONLINEAR: i32 = 0;

pub open spec fn spec_min_u32(a: u32, b: u32) -> u32 {
    if a < b {
        a
    } else {
        b
    }
}

pub open spec fn spec_max_u32(a: u32, b: u32) -> u32 {
    if a > b {
        a
    } else {
        b
    }
}

/// One dimension of the window clamped into the surface's supported range;
/// when the range is empty its lower bound wins.
pub open spec fn spec_clamp_u32(v: u32, lo: u32, hi: u32) -> u32 {
    spec_max_u32(lo, spec_min_u32(hi, v))
}

/// The extent a new swapchain must use: the surface's own extent when it is
/// fixed, otherwise the window's pixel size clamped into the supported range.
pub open spec fn spec_select_extent(caps: SurfaceCapabilities, window: Extent2D) -> Extent2D {
    if caps.current_extent.width != EXTENT_UNDEFINED {
        caps.current_extent
    } else {
        Extent2D {
            width: spec_clamp_u32(
                window.width,
                caps.min_image_extent.width,
                caps.max_image_extent.width,
            ),
            height: spec_clamp_u32(
                window.height,
                caps.min_image_extent.height,
                caps.max_image_extent.height,
            ),
        }
    }
}

pub fn select_extent(caps: &SurfaceCapabilities, window: Extent2D) -> (r: Extent2D)
    ensures
        r == spec_select_extent(*caps, window),
{
    if caps.current_extent.width != EXTENT_UNDEFINED {
        caps.current_extent
    } else {
        let w = if caps.max_image_extent.width < window.width {
            caps.max_image_extent.width
        } else {
            window.width
        };
        let h = if caps.max_image_extent.height < window.height {
            caps.max_image_extent.height
        } else {
            window.height
        };
        Extent2D {
            width: if w < caps.min_image_extent.width {
                caps.min_image_extent.width
            } else {
                w
            },
            height: if h < caps.min_image_extent.height {
                caps.min_image_extent.height
            } else {
                h
            },
        }
    }
}

/// The image count requested of a new swapchain: one more than the minimum
/// the surface supports.
pub fn swapchain_image_count(caps: &SurfaceCapabilities) -> (r: u32)
    requires
        caps.min_image_count < 0xffff_ffff,
    ensures
        r == caps.min_image_count + 1,
{
    caps.min_image_count + 1
}

/// Preference order over present modes: lower ranks are preferred. The order
/// is mailbox, then immediate, then relaxed first-in-first-out, then
/// first-in-first-out, then anything else.
pub open spec fn present_mode_rank(m: PresentMode) -> int {
    match m {
        PresentMode::Mailbox => 0,
        PresentMode::Immediate => 1,
        PresentMode::FifoRelaxed => 2,
        PresentMode::Fifo => 3,
        PresentMode::Other(_) => 4,
    }
}

fn present_mode_rank_exec(m: PresentMode) -> (r: u8)
    ensures
        r as int == present_mode_rank(m),
{
    match m {
        PresentMode::Mailbox => 0,
        PresentMode::Immediate => 1,
        PresentMode::FifoRelaxed => 2,
        PresentMode::Fifo => 3,
        PresentMode::Other(_) => 4,
    }
}

/// The mode chosen from a non-empty list: the first of the lowest rank.
pub open spec fn spec_choose_present_mode(s: Seq<PresentMode>) -> PresentMode
    recommends
        s.len() > 0,
    decreases s.len(),
{
    if s.len() <= 1 {
        s[0]
    } else {
        let head = spec_choose_present_mode(s.drop_last());
        if present_mode_rank(s.last()) < present_mode_rank(head) {
            s.last()
        } else {
            head
        }
    }
}

pub fn choose_present_mode(modes: &Vec<PresentMode>) -> (r: PresentMode)
    requires
        modes@.len() > 0,
    ensures
        r == spec_choose_present_mode(modes@),
{
    let mut best = modes[0];
    let mut i: usize = 1;
    proof {
        assert(modes@.take(1) =~= seq![modes@[0]]);
    }
    while i < modes.len()
        invariant
            1 <= i <= modes@.len(),
            best == spec_choose_present_mode(modes@.take(i as int)),
        decreases modes@.len() - i,
    {
        proof {
            assert(modes@.take(i + 1).drop_last() =~= modes@.take(i as int));
            assert(modes@.take(i + 1).last() == modes@[i as int]);
        }
        let m = modes[i];
        if present_mode_rank_exec(m) < present_mode_rank_exec(best) {
            best = m;
        }
        i += 1;
    }
    proof {
        assert(modes@.take(modes@.len() as int) =~= modes@);
    }
    best
}

/// Whether a format is the one this renderer prefers: 8-bit BGRA presented in
/// non-linear sRGB.
pub open spec fn is_preferred_format(f: SurfaceFormat) -> bool {
    f.format == FORMAT_B8G8R8A8_UNORM && f.color_space == COLOR_SPACE_SRGB_NONLINEAR
}

pub open spec fn format_key(f: SurfaceFormat) -> int {
    if is_preferred_format(f) {
        1
    } else {
        0
    }
}

/// The format chosen from a non-empty list: the last preferred entry when one
/// exists, otherwise the last entry.
pub open spec fn spec_choose_format(s: Seq<SurfaceFormat>) -> SurfaceFormat
    recommends
        s.len() > 0,
    decreases s.len(),
{
    if s.len() <= 1 {
        s[0]
    } else {
        let head = spec_choose_format(s.drop_last());
        if format_key(s.last()) >= format_key(head) {
            s.last()
        } else {
            head
        }
    }
}

fn is_preferred_format_exec(f: &SurfaceFormat) -> (r: bool)
    ensures
        r == is_preferred_format(*f),
{
    f.format == FORMAT_B8G8R8A8_UNORM && f.color_space == COLOR_SPACE_SRGB_NONLINEAR
}

pub fn choose_surface_format(formats: &Vec<SurfaceFormat>) -> (r: SurfaceFormat)
    requires
        formats@.len() > 0,
    ensures
        r == spec_choose_format(formats@),
{
    let mut best = formats[0];
    let mut i: usize = 1;
    proof {
        assert(formats@.take(1) =~= seq![formats@[0]]);
    }
    while i < formats.len()
        invariant
            1 <= i <= formats@.len(),
            best == spec_choose_format(formats@.take(i as int)),
        decreases formats@.len() - i,
    {
        proof {
            assert(formats@.take(i + 1).drop_last() =~= formats@.take(i as int));
            assert(formats@.take(i + 1).last() == formats@[i as int]);
        }
        let f = formats[i];
        let fp = is_preferred_format_exec(&f);
        let bp = is_preferred_format_exec(&best);
        if fp || !bp {
            best = f;
        }
        i += 1;
    }
    proof {
        assert(formats@.take(formats@.len() as int) =~= formats@);
    }
    best
}

/// The chosen present mode always stands in the offered list and no offered
/// mode outranks it.
pub proof fn lemma_chosen_mode_is_best(s: Seq<PresentMode>)
    requires
        s.len() > 0,
    ensures
        exists|i: int| 0 <= i < s.len() && s[i] == spec_choose_present_mode(s),
        forall|i: int|
            0 <= i < s.len() ==> present_mode_rank(spec_choose_present_mode(s))
                <= present_mode_rank(s[i]),
    decreases s.len(),
{
    if s.len() <= 1 {
        assert(s[0] == spec_choose_present_mode(s));
    } else {
        lemma_chosen_mode_is_best(s.drop_last());
        let head = spec_choose_present_mode(s.drop_last());
        assert forall|i: int| 0 <= i < s.len() implies present_mode_rank(
            spec_choose_present_mode(s),
        ) <= present_mode_rank(s[i]) by {
            if i < s.len() - 1 {
                assert(s.drop_last()[i] == s[i]);
            }
        }
        if present_mode_rank(s.last()) < present_mode_rank(head) {
            assert(s[s.len() - 1] == spec_choose_present_mode(s));
        } else {
            let j = choose|j: int| 0 <= j < s.drop_last().len() && s.drop_last()[j] == head;
            assert(s[j] == spec_choose_present_mode(s));
        }
    }
}

/// The chosen format always stands in the offered list.
pub proof fn lemma_chosen_format_is_offered(s: Seq<SurfaceFormat>)
    requires
        s.len() > 0,
    ensures
        exists|i: int| 0 <= i < s.len() && s[i] == spec_choose_format(s),
    decreases s.len(),
{
    if s.len() <= 1 {
        assert(s[0] == spec_choose_format(s));
    } else {
        lemma_chosen_format_is_offered(s.drop_last());
        let head = spec_choose_format(s.drop_last());
        if format_key(s.last()) >= format_key(head) {
            assert(s[s.len() - 1] == spec_choose_format(s));
        } else {
            let j = choose|j: int| 0 <= j < s.drop_last().len() && s.drop_last()[j] == head;
            assert(s[j] == spec_choose_format(s));
        }
    }
}

/// When any offered format is the preferred one, the chosen format is
/// preferred.
pub proof fn lemma_preferred_format_wins(s: Seq<SurfaceFormat>)
    requires
        s.len() > 0,
        exists|i: int| 0 <= i < s.len() && is_preferred_format(s[i]),
    ensures
        is_preferred_format(spec_choose_format(s)),
    decreases s.len(),
{
    if s.len() <= 1 {
    } else {
        if is_preferred_format(s.last()) {
        } else {
            let i = choose|i: int| 0 <= i < s.len() && is_preferred_format(s[i]);
            assert(s.drop_last()[i] == s[i]);
            lemma_preferred_format_wins(s.drop_last());
        }
    }
}

} // verus!
