use vstd::prelude::*;

use crate::errors::HalError;
use crate::ring::FRAMES_IN_FLIGHT;

verus! {

/// A drawable size in whole pixels.
#[derive(Clone, Copy, PartialEq, Eq, Structural, Debug)]
pub struct Extent2D {
    pub width: u32,
    pub height: u32,
}

/// What the surface reports about the swapchains it can carry: the extent
/// range and the image count range a configuration must respect.
#[derive(Clone, Copy, PartialEq, Eq, Structural, Debug)]
pub struct SurfaceCaps {
    pub min_extent: Extent2D,
    pub max_extent: Extent2D,
    pub min_image_count: u32,
    pub max_image_count: u32,
}

impl SurfaceCaps {
    /// A capability report is valid when each minimum is at most its maximum
    /// and at least one image can be requested.
    pub open spec fn valid(self) -> bool {
        &&& self.min_extent.width <= self.max_extent.width
        &&& self.min_extent.height <= self.max_extent.height
        &&& 1 <= self.min_image_count <= self.max_image_count
    }
}

/// A color format the surface supports. `code` identifies the concrete
/// graphics-API format; `srgb` says whether its channel type is sRGB-encoded.
#[derive(Clone, Copy, PartialEq, Eq, Structural, Debug)]
pub struct SurfaceFormat {
    pub code: u32,
    pub srgb: bool,
}

/// Format code of the fixed fallback (an 8-bit RGBA sRGB format), used when
/// the surface reports no format preference at all.
pub const FALLBACK_FORMAT_CODE: u32 = 0;

/// The fixed default format, chosen when the surface reports no preference.
pub open spec fn fallback_format() -> SurfaceFormat {
    SurfaceFormat { code: FALLBACK_FORMAT_CODE, srgb: true }
}

/// Presentation mode of the swapchain. First-in-first-out is the one mode
/// every surface supports, and the one this engine requests.
#[derive(Clone, Copy, PartialEq, Eq, Structural, Debug)]
pub enum PresentMode {
    Fifo,
    Mailbox,
    Immediate,
    Relaxed,
}

/// A complete swapchain configuration, derived from surface capabilities.
#[derive(Clone, Copy, PartialEq, Eq, Structural, Debug)]
pub struct SwapchainConfig {
    pub format: SurfaceFormat,
    pub present_mode: PresentMode,
    pub extent: Extent2D,
    pub image_count: u32,
}

/// The render area mirroring the current swapchain extent, anchored at the
/// origin.
#[derive(Clone, Copy, PartialEq, Eq, Structural, Debug)]
pub struct RenderArea {
    pub x: u32,
    pub y: u32,
    pub width: u32,
    pub height: u32,
}

/// The render area derived from an extent: origin-anchored, same size.
pub open spec fn spec_render_area(e: Extent2D) -> RenderArea {
    RenderArea { x: 0, y: 0, width: e.width, height: e.height }
}

/// Whether some entry of a supported-format list is sRGB-encoded.
pub open spec fn has_srgb(s: Seq<SurfaceFormat>) -> bool {
    exists|i: int| 0 <= i < s.len() && s[i].srgb
}

/// Index of the entry the format-preference rule picks from a non-empty
/// supported-format list: the first sRGB-encoded entry if any, else the first
/// entry.
pub open spec fn format_choice_index(s: Seq<SurfaceFormat>) -> int
    decreases s.len(),
{
    if s.len() == 0 {
        0
    } else if s[0].srgb {
        0
    } else if has_srgb(s.subrange(1, s.len() as int)) {
        1 + format_choice_index(s.subrange(1, s.len() as int))
    } else {
        0
    }
}

/// The chosen format: the preferred entry of the supported list, or the fixed
/// fallback when the surface reports no list.
pub open spec fn spec_choose_format(formats: Option<Seq<SurfaceFormat>>) -> SurfaceFormat {
    match formats {
        None => fallback_format(),
        Some(s) => if s.len() == 0 {
            fallback_format()
        } else {
            s[format_choice_index(s)]
        },
    }
}

/// The sequence of formats a surface reported, if it reported any.
pub open spec fn formats_view(formats: Option<Vec<SurfaceFormat>>) -> Option<Seq<SurfaceFormat>> {
    match formats {
        None => None,
        Some(v) => Some(v@),
    }
}

/// The chosen index is in range, lands on the first sRGB entry whenever the
/// list has one, and is the first entry otherwise.
pub proof fn lemma_format_choice_index_props(s: Seq<SurfaceFormat>)
    requires
        s.len() > 0,
    ensures
        0 <= format_choice_index(s) < s.len(),
        has_srgb(s) ==> s[format_choice_index(s)].srgb,
        forall|j: int| 0 <= j < format_choice_index(s) ==> !s[j].srgb,
        !has_srgb(s) ==> format_choice_index(s) == 0,
    decreases s.len(),
{
    let tail = s.subrange(1, s.len() as int);
    if s[0].srgb {
        assert(has_srgb(s));
    } else if has_srgb(tail) {
        assert(tail.len() > 0);
        lemma_format_choice_index_props(tail);
        let k = format_choice_index(tail);
        assert(s[1 + k] == tail[k]);
        assert(has_srgb(s));
        assert forall|j: int| 0 <= j < 1 + k implies !s[j].srgb by {
            if j >= 1 {
                assert(s[j] == tail[j - 1]);
            }
        }
    } else {
        assert forall|i: int| 0 <= i < s.len() implies !s[i].srgb by {
            if i >= 1 {
                assert(tail[i - 1] == s[i]);
                if s[i].srgb {
                    assert(has_srgb(tail));
                }
            }
        }
    }
}

/// Pick the swapchain color format from the surface's supported-format list:
/// the first sRGB-encoded entry, else the list's first entry, else the fixed
/// fallback when no list was reported.
pub fn choose_format(formats: &Option<Vec<SurfaceFormat>>) -> (r: SurfaceFormat)
    requires
        (*formats) matches Some(v) ==> v@.len() > 0,
    ensures
        r == spec_choose_format(formats_view(*formats)),
{
    match formats {
        None => SurfaceFormat { code: FALLBACK_FORMAT_CODE, srgb: true },
        Some(v) => {
            let n = v.len();
            let mut i: usize = 0;
            while i < n
                invariant
                    formats_view(*formats) == Some(v@),
                    n == v@.len(),
                    0 < n,
                    i <= n,
                    forall|j: int| 0 <= j < i ==> !v@[j].srgb,
                decreases n - i,
            {
                if v[i].srgb {
                    proof {
                        assert(v@[i as int].srgb);
                        assert(has_srgb(v@));
                        lemma_format_choice_index_props(v@);
                        let k = format_choice_index(v@);
                        if k < i {
                            assert(!v@[k].srgb);
                        }
                        if k > i {
                            assert(!v@[i as int].srgb);
                        }
                        assert(k == i);
                        assert(formats_view(*formats) == Some(v@));
                        assert(spec_choose_format(formats_view(*formats)) == v@[k]);
                    }
                    return v[i];
                }
                i += 1;
            }
            proof {
                lemma_format_choice_index_props(v@);
                if has_srgb(v@) {
                    let w = choose|w: int| 0 <= w < v@.len() && v@[w].srgb;
                    assert(!v@[w].srgb);
                }
            }
            v[0]
        },
    }
}

/// `x` clamped into the inclusive range `[lo, hi]`.
pub open spec fn spec_clamp_u32(x: u32, lo: u32, hi: u32) -> u32 {
    if x < lo {
        lo
    } else if x > hi {
        hi
    } else {
        x
    }
}

/// Clamp a value into an inclusive range.
pub fn clamp_u32(x: u32, lo: u32, hi: u32) -> (r: u32)
    requires
        lo <= hi,
    ensures
        r == spec_clamp_u32(x, lo, hi),
{
    if x < lo {
        lo
    } else if x > hi {
        hi
    } else {
        x
    }
}

/// The desired extent clamped into the capability-reported extent range.
pub open spec fn spec_clamped_extent(caps: SurfaceCaps, desired: Extent2D) -> Extent2D {
    Extent2D {
        width: spec_clamp_u32(desired.width, caps.min_extent.width, caps.max_extent.width),
        height: spec_clamp_u32(desired.height, caps.min_extent.height, caps.max_extent.height),
    }
}

/// The image count requested from the surface: one image per frame in flight,
/// clamped into the capability-reported image count range.
pub open spec fn spec_image_count(caps: SurfaceCaps) -> u32 {
    spec_clamp_u32(FRAMES_IN_FLIGHT as u32, caps.min_image_count, caps.max_image_count)
}

/// The swapchain configuration derived from a capability report, a
/// supported-format list and a desired extent. Deterministic: it depends on
/// nothing but these three inputs.
pub open spec fn spec_config(
    caps: SurfaceCaps,
    formats: Option<Seq<SurfaceFormat>>,
    desired: Extent2D,
) -> SwapchainConfig {
    SwapchainConfig {
        format: spec_choose_format(formats),
        present_mode: PresentMode::Fifo,
        extent: spec_clamped_extent(caps, desired),
        image_count: spec_image_count(caps),
    }
}

/// For every valid capability report, the derived configuration's extent lies
/// within the reported extent range and its image count within the reported
/// image count range.
pub proof fn lemma_config_within_caps(
    caps: SurfaceCaps,
    formats: Option<Seq<SurfaceFormat>>,
    desired: Extent2D,
)
    requires
        caps.valid(),
    ensures
        ({
            let cfg = spec_config(caps, formats, desired);
            &&& caps.min_extent.width <= cfg.extent.width <= caps.max_extent.width
            &&& caps.min_extent.height <= cfg.extent.height <= caps.max_extent.height
            &&& caps.min_image_count <= cfg.image_count <= caps.max_image_count
        }),
{
}

/// Deriving a configuration is idempotent: feeding the derived extent back in
/// as the desired extent, with capabilities and formats unchanged, yields the
/// identical configuration.
pub proof fn lemma_configure_idempotent(
    caps: SurfaceCaps,
    formats: Option<Seq<SurfaceFormat>>,
    desired: Extent2D,
)
    requires
        caps.valid(),
    ensures
        spec_config(caps, formats, spec_config(caps, formats, desired).extent) == spec_config(
            caps,
            formats,
            desired,
        ),
{
}

/// Owner of the live swapchain configuration and the render area derived from
/// its extent. Only `configure` mutates either.
pub struct SwapchainManager {
    pub config: Option<SwapchainConfig>,
    pub render_area: RenderArea,
}

impl SwapchainManager {
    /// A manager with no swapchain configured yet.
    pub fn new() -> (m: SwapchainManager)
        ensures
            m.config is None,
            m.render_area == (RenderArea { x: 0, y: 0, width: 0, height: 0 }),
    {
        SwapchainManager {
            config: None,
            render_area: RenderArea { x: 0, y: 0, width: 0, height: 0 },
        }
    }

    /// Derive and adopt a swapchain configuration from the surface's current
    /// capability report. Succeeds if and only if the clamped extent has
    /// non-zero area; a zero-area extent (e.g. a minimized window) is the
    /// transient `SwapchainCreateFailed`, retried by the caller on a later
    /// frame, and leaves the manager unchanged. On success the render area is
    /// updated to mirror the new extent.
    pub fn configure(
        &mut self,
        caps: &SurfaceCaps,
        formats: &Option<Vec<SurfaceFormat>>,
        desired_extent: Extent2D,
    ) -> (r: Result<SwapchainConfig, HalError>)
        requires
            caps.valid(),
            (*formats) matches Some(v) ==> v@.len() > 0,
        ensures
            ({
                let cfg = spec_config(*caps, formats_view(*formats), desired_extent);
                if cfg.extent.width > 0 && cfg.extent.height > 0 {
                    &&& r == Result::<SwapchainConfig, HalError>::Ok(cfg)
                    &&& final(self).config == Some(cfg)
                    &&& final(self).render_area == spec_render_area(cfg.extent)
                } else {
                    &&& r == Result::<SwapchainConfig, HalError>::Err(
                        HalError::SwapchainCreateFailed,
                    )
                    &&& *final(self) == *old(self)
                }
            }),
            r matches Ok(cfg) ==> caps.min_extent.width <= cfg.extent.width
                <= caps.max_extent.width && caps.min_extent.height <= cfg.extent.height
                <= caps.max_extent.height && caps.min_image_count <= cfg.image_count
                <= caps.max_image_count && cfg.extent.width > 0 && cfg.extent.height > 0,
    {
        let format = choose_format(formats);
        let width = clamp_u32(desired_extent.width, caps.min_extent.width, caps.max_extent.width);
        let height = clamp_u32(
            desired_extent.height,
            caps.min_extent.height,
            caps.max_extent.height,
        );
        let image_count = clamp_u32(
            FRAMES_IN_FLIGHT as u32,
            caps.min_image_count,
            caps.max_image_count,
        );
        if width == 0 || height == 0 {
            return Err(HalError::SwapchainCreateFailed);
        }
        let cfg = SwapchainConfig {
            format,
            present_mode: PresentMode::Fifo,
            extent: Extent2D { width, height },
            image_count,
        };
        self.config = Some(cfg);
        self.render_area = RenderArea { x: 0, y: 0, width, height };
        Ok(cfg)
    }
}

} // verus!
