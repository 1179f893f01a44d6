use vstd::prelude::*;

verus! {

/// A width and height in pixels.
#[derive(Clone, Copy, Debug, PartialEq, Eq, Structural)]
pub struct Extent {
    pub width: u32,
    pub height: u32,
}

/// A pixel format and color space pair, as the API numbers them.
#[derive(Clone, Copy, Debug, PartialEq, Eq, Structural)]
pub struct SurfaceFormat {
    pub format: u32,
    pub color_space: u32,
}

/// The API's number for 8-bit BGRA with sRGB encoding.
pub const PREFERRED_FORMAT: u32 = 50;

/// The API's number for the non-linear sRGB color space.
pub const PREFERRED_COLOR_SPACE: u32 = 0;

#[derive(Clone, Copy, Debug, PartialEq, Eq, Structural)]
pub enum PresentMode {
    Immediate,
    /// Low latency without tearing.
    Mailbox,
    /// Always available.
    Fifo,
    FifoRelaxed,
}

/// What the surface reports it supports. A `max_image_count` of zero means
/// that there is no upper bound.
#[derive(Clone, Copy, Debug, PartialEq, Eq, Structural)]
pub struct SurfaceCapabilities {
    pub min_image_count: u32,
    pub max_image_count: u32,
    pub min_extent: Extent,
    pub max_extent: Extent,
}

/// The shape of the swapchain that was created.
#[derive(Clone, Copy, Debug, PartialEq, Eq, Structural)]
pub struct SwapchainState {
    pub image_count: u32,
    pub extent: Extent,
    pub format: SurfaceFormat,
    pub present_mode: PresentMode,
}

#[derive(Clone, Copy, Debug, PartialEq, Eq, Structural)]
pub enum PresentError {
    /// The surface is gone; the presentation engine cannot go on.
    SurfaceLost,
    /// The surface offers no format at all.
    FormatUnsupported,
    /// The window has no area (it is minimized); nothing can be built.
    ZeroExtent,
}

pub open spec fn preferred_format() -> SurfaceFormat {
    SurfaceFormat { format: PREFERRED_FORMAT, color_space: PREFERRED_COLOR_SPACE }
}

/// The preferred pair when the surface offers it, else the first offered.
pub open spec fn format_choice(formats: Seq<SurfaceFormat>) -> SurfaceFormat
    recommends
        formats.len() > 0,
{
    if formats.contains(preferred_format()) {
        preferred_format()
    } else {
        formats[0]
    }
}

pub open spec fn present_mode_choice(modes: Seq<PresentMode>) -> PresentMode {
    if modes.contains(PresentMode::Mailbox) {
        PresentMode::Mailbox
    } else {
        PresentMode::Fifo
    }
}

/// `v` brought up to `lo`, then down to `hi`.
pub open spec fn clamp_spec(v: u32, lo: u32, hi: u32) -> u32 {
    if v < lo {
        lo
    } else if v > hi {
        hi
    } else {
        v
    }
}

pub open spec fn image_count_choice(desired: u32, caps: SurfaceCapabilities) -> u32 {
    let capped: u32 = if caps.max_image_count != 0 && desired > caps.max_image_count {
        caps.max_image_count
    } else {
        desired
    };
    if capped < caps.min_image_count {
        caps.min_image_count
    } else {
        capped
    }
}

pub open spec fn extent_choice(want: Extent, caps: SurfaceCapabilities) -> Extent {
    Extent {
        width: clamp_spec(want.width, caps.min_extent.width, caps.max_extent.width),
        height: clamp_spec(want.height, caps.min_extent.height, caps.max_extent.height),
    }
}

pub open spec fn is_zero(e: Extent) -> bool {
    e.width == 0 || e.height == 0
}

/// The outcome of building a swapchain on the given inputs.
pub open spec fn build_spec(
    surface_alive: bool,
    caps: SurfaceCapabilities,
    formats: Seq<SurfaceFormat>,
    modes: Seq<PresentMode>,
    desired_count: u32,
    extent: Extent,
) -> Result<SwapchainState, PresentError> {
    if !surface_alive {
        Err(PresentError::SurfaceLost)
    } else if is_zero(extent) {
        Err(PresentError::ZeroExtent)
    } else if formats.len() == 0 {
        Err(PresentError::FormatUnsupported)
    } else {
        Ok(
            SwapchainState {
                image_count: image_count_choice(desired_count, caps),
                extent: extent_choice(extent, caps),
                format: format_choice(formats),
                present_mode: present_mode_choice(modes),
            },
        )
    }
}

/// Chooses the surface format.
pub fn choose_surface_format(formats: &Vec<SurfaceFormat>) -> (r: Option<SurfaceFormat>)
    ensures
        r.is_none() <==> formats@.len() == 0,
        r matches Some(f) ==> f == format_choice(formats@),
{
    if formats.len() == 0 {
        return None;
    }
    let mut i: usize = 0;
    while i < formats.len()
        invariant
            i <= formats@.len(),
            forall|j: int| 0 <= j < i ==> formats@[j] != preferred_format(),
        decreases formats@.len() - i,
    {
        if formats[i].format == PREFERRED_FORMAT && formats[i].color_space == PREFERRED_COLOR_SPACE {
            proof {
                assert(formats@.contains(preferred_format())) by {
                    assert(formats@[i as int] == preferred_format());
                }
            }
            return Some(formats[i]);
        }
        i = i + 1;
    }
    Some(formats[0])
}

/// Chooses the low-latency mode when offered, else the one that every
/// surface supports.
pub fn choose_present_mode(modes: &Vec<PresentMode>) -> (r: PresentMode)
    ensures
        r == present_mode_choice(modes@),
{
    let mut i: usize = 0;
    while i < modes.len()
        invariant
            i <= modes@.len(),
            forall|j: int| 0 <= j < i ==> modes@[j] != PresentMode::Mailbox,
        decreases modes@.len() - i,
    {
        if modes[i] == PresentMode::Mailbox {
            proof {
                assert(modes@.contains(PresentMode::Mailbox)) by {
                    assert(modes@[i as int] == PresentMode::Mailbox);
                }
            }
            return PresentMode::Mailbox;
        }
        i = i + 1;
    }
    PresentMode::Fifo
}

fn clamp_u32(v: u32, lo: u32, hi: u32) -> (r: u32)
    ensures
        r == clamp_spec(v, lo, hi),
{
    if v < lo {
        lo
    } else if v > hi {
        hi
    } else {
        v
    }
}

/// The number of images: the desired count, lowered to the surface's
/// maximum when it has one, then raised to its minimum.
pub fn choose_image_count(desired: u32, caps: &SurfaceCapabilities) -> (r: u32)
    ensures
        r == image_count_choice(desired, *caps),
        r >= caps.min_image_count,
        caps.max_image_count != 0 && caps.min_image_count <= caps.max_image_count ==> r
            <= caps.max_image_count,
{
    let capped: u32 = if caps.max_image_count != 0 && desired > caps.max_image_count {
        caps.max_image_count
    } else {
        desired
    };
    if capped < caps.min_image_count {
        caps.min_image_count
    } else {
        capped
    }
}

/// The window's extent clamped, dimension by dimension, to the surface's.
pub fn choose_extent(want: Extent, caps: &SurfaceCapabilities) -> (r: Extent)
    ensures
        r == extent_choice(want, *caps),
{
    Extent {
        width: clamp_u32(want.width, caps.min_extent.width, caps.max_extent.width),
        height: clamp_u32(want.height, caps.min_extent.height, caps.max_extent.height),
    }
}

/// Decides the shape of a swapchain for the surface. A lost surface, a
/// window without area and a surface without formats are refused, in that
/// order.
pub fn build(
    surface_alive: bool,
    caps: &SurfaceCapabilities,
    formats: &Vec<SurfaceFormat>,
    modes: &Vec<PresentMode>,
    desired_count: u32,
    extent: Extent,
) -> (r: Result<SwapchainState, PresentError>)
    ensures
        r == build_spec(surface_alive, *caps, formats@, modes@, desired_count, extent),
{
    if !surface_alive {
        return Err(PresentError::SurfaceLost);
    }
    if extent.width == 0 || extent.height == 0 {
        return Err(PresentError::ZeroExtent);
    }
    match choose_surface_format(formats) {
        None => Err(PresentError::FormatUnsupported),
        Some(format) => Ok(
            SwapchainState {
                image_count: choose_image_count(desired_count, caps),
                extent: choose_extent(extent, caps),
                format,
                present_mode: choose_present_mode(modes),
            },
        ),
    }
}

/// Whether the image count of a built swapchain respects the surface's
/// bounds: at least the minimum, and at most the maximum when there is one.
pub open spec fn count_within(n: u32, caps: SurfaceCapabilities) -> bool {
    &&& n >= caps.min_image_count
    &&& caps.max_image_count != 0 ==> n <= caps.max_image_count
}

/// Whatever image count is asked for, a swapchain that `build` returns has
/// between the surface's minimum and maximum number of images (at least the
/// minimum when the maximum is unbounded).
pub proof fn lemma_image_count_within_bounds(
    surface_alive: bool,
    caps: SurfaceCapabilities,
    formats: Seq<SurfaceFormat>,
    modes: Seq<PresentMode>,
    desired_count: u32,
    extent: Extent,
)
    requires
        caps.max_image_count == 0 || caps.min_image_count <= caps.max_image_count,
    ensures
        build_spec(surface_alive, caps, formats, modes, desired_count, extent) matches Ok(s)
            ==> count_within(s.image_count, caps),
{
}

} // verus!
