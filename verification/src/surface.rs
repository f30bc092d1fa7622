//! Swapchain parameter selection: surface format, presentation mode, image
//! count and extent, decided from the surface's reported support set.

use vstd::prelude::*;

use crate::error::{Capability, EngineError};

verus! {

/// The canonical 8-bit-per-channel format code preferred for the swapchain.
pub const PREFERRED_FORMAT: u32 = 50;

/// The color space code that goes with the preferred format.
pub const PREFERRED_COLOR_SPACE: u32 = 0;

/// The sentinel a surface reports as its current extent when the window
/// manager lets the swapchain pick any extent within the bounds.
pub const EXTENT_UNDEFINED: u32 = 0xffff_ffff;

/// A surface format: a pixel format code paired with a color space code.
#[derive(Clone, Copy, Debug, PartialEq, Eq, Structural)]
pub struct SurfaceFormat {
    pub format: u32,
    pub color_space: u32,
}

/// A presentation mode the surface may support.
#[derive(Clone, Copy, Debug, PartialEq, Eq, Structural)]
pub enum PresentMode {
    /// No queueing; may tear.
    Immediate,
    /// Low-latency triple buffering; preferred when available.
    Mailbox,
    /// Guaranteed-available queued presentation.
    Fifo,
    /// Queued presentation that may tear after a missed vertical blank.
    FifoRelaxed,
}

/// The capability set a surface reports.
#[derive(Clone, Copy, Debug, PartialEq, Eq, Structural)]
pub struct SurfaceCapabilities {
    /// Fewest presentable images a swapchain on this surface may have.
    pub min_image_count: u32,
    /// Most presentable images allowed; zero means no upper bound.
    pub max_image_count: u32,
    /// Current extent, or `EXTENT_UNDEFINED` in both fields when the
    /// swapchain may pick an extent within the bounds below.
    pub current_width: u32,
    pub current_height: u32,
    pub min_width: u32,
    pub min_height: u32,
    pub max_width: u32,
    pub max_height: u32,
}

impl SurfaceCapabilities {
    /// The reported bounds are consistent.
    pub open spec fn wf(self) -> bool {
        &&& self.min_width <= self.max_width
        &&& self.min_height <= self.max_height
        &&& self.min_image_count >= 1
        &&& self.max_image_count == 0 || self.min_image_count <= self.max_image_count
    }
}

/// Everything the surface supports, queried from the device once.
#[derive(Clone, Debug)]
pub struct SwapchainSupport {
    pub capabilities: SurfaceCapabilities,
    pub formats: Vec<SurfaceFormat>,
    pub present_modes: Vec<PresentMode>,
}

/// True if `f` is the preferred canonical format.
pub open spec fn is_preferred_format(f: SurfaceFormat) -> bool {
    f.format == PREFERRED_FORMAT && f.color_space == PREFERRED_COLOR_SPACE
}

/// Selects the surface format: the first preferred one, else the first
/// supported one.
pub fn choose_surface_format(formats: &Vec<SurfaceFormat>) -> (r: SurfaceFormat)
    requires
        formats@.len() > 0,
    ensures
        if exists|i: int| 0 <= i < formats@.len() && is_preferred_format(formats@[i]) {
            exists|i: int|
                {
                    &&& 0 <= i < formats@.len()
                    &&& r == formats@[i]
                    &&& is_preferred_format(formats@[i])
                    &&& forall|j: int| 0 <= j < i ==> !is_preferred_format(formats@[j])
                }
        } else {
            r == formats@[0]
        },
{
    let n = formats.len();
    let mut i: usize = 0;
    while i < n
        invariant
            i <= n,
            n == formats@.len(),
            forall|j: int| 0 <= j < i ==> !is_preferred_format(formats@[j]),
        decreases n - i,
    {
        let f = formats[i];
        if f.format == PREFERRED_FORMAT && f.color_space == PREFERRED_COLOR_SPACE {
            return f;
        }
        i += 1;
    }
    formats[0]
}

/// True if `modes` offers the low-latency mailbox mode.
pub open spec fn has_mailbox(modes: Seq<PresentMode>) -> bool {
    exists|i: int| 0 <= i < modes.len() && modes[i] == PresentMode::Mailbox
}

/// Selects the presentation mode: mailbox when offered, else fifo, which
/// every surface supports.
pub fn choose_present_mode(modes: &Vec<PresentMode>) -> (r: PresentMode)
    ensures
        r == if has_mailbox(modes@) {
            PresentMode::Mailbox
        } else {
            PresentMode::Fifo
        },
{
    let n = modes.len();
    let mut i: usize = 0;
    while i < n
        invariant
            i <= n,
            n == modes@.len(),
            forall|j: int| 0 <= j < i ==> modes@[j] != PresentMode::Mailbox,
        decreases n - i,
    {
        if modes[i] == PresentMode::Mailbox {
            return PresentMode::Mailbox;
        }
        i += 1;
    }
    PresentMode::Fifo
}

/// What `choose_image_count` returns: one more than the surface's minimum,
/// clamped to the surface's maximum when one is reported.
pub open spec fn spec_image_count(caps: SurfaceCapabilities) -> int {
    let wanted = caps.min_image_count + 1;
    if caps.max_image_count != 0 && wanted > caps.max_image_count {
        caps.max_image_count as int
    } else {
        wanted
    }
}

/// Selects the swapchain image count.
pub fn choose_image_count(caps: &SurfaceCapabilities) -> (r: u32)
    requires
        caps.min_image_count < u32::MAX,
        caps.wf(),
    ensures
        r == spec_image_count(*caps),
        r >= 1,
{
    let wanted = caps.min_image_count + 1;
    if caps.max_image_count != 0 && wanted > caps.max_image_count {
        caps.max_image_count
    } else {
        wanted
    }
}

/// Clamps `v` into `[lo, hi]`.
pub open spec fn spec_clamp(v: u32, lo: u32, hi: u32) -> u32 {
    if v < lo {
        lo
    } else if v > hi {
        hi
    } else {
        v
    }
}

/// What `choose_extent` returns: the surface's current extent when it is
/// defined, else the caller's hint clamped into the surface's bounds.
pub open spec fn spec_extent(caps: SurfaceCapabilities, hint_w: u32, hint_h: u32) -> (u32, u32) {
    if caps.current_width != EXTENT_UNDEFINED {
        (caps.current_width, caps.current_height)
    } else {
        (
            spec_clamp(hint_w, caps.min_width, caps.max_width),
            spec_clamp(hint_h, caps.min_height, caps.max_height),
        )
    }
}

/// Selects the swapchain extent.
pub fn choose_extent(caps: &SurfaceCapabilities, hint_w: u32, hint_h: u32) -> (r: (u32, u32))
    requires
        caps.wf(),
    ensures
        r == spec_extent(*caps, hint_w, hint_h),
{
    if caps.current_width != EXTENT_UNDEFINED {
        (caps.current_width, caps.current_height)
    } else {
        let w = if hint_w < caps.min_width {
            caps.min_width
        } else if hint_w > caps.max_width {
            caps.max_width
        } else {
            hint_w
        };
        let h = if hint_h < caps.min_height {
            caps.min_height
        } else if hint_h > caps.max_height {
            caps.max_height
        } else {
            hint_h
        };
        (w, h)
    }
}

/// The parameters one swapchain generation is built with.
#[derive(Clone, Copy, Debug, PartialEq, Eq, Structural)]
pub struct SwapchainConfig {
    pub format: SurfaceFormat,
    pub present_mode: PresentMode,
    pub image_count: u32,
    pub width: u32,
    pub height: u32,
}

impl SwapchainConfig {
    /// `cfg` is what planning over `support` and the given hint yields.
    pub open spec fn planned_from(
        self,
        support: SwapchainSupport,
        hint_w: u32,
        hint_h: u32,
    ) -> bool {
        &&& self.present_mode == if has_mailbox(support.present_modes@) {
            PresentMode::Mailbox
        } else {
            PresentMode::Fifo
        }
        &&& self.image_count == spec_image_count(support.capabilities)
        &&& self.image_count >= 1
        &&& (self.width, self.height) == spec_extent(support.capabilities, hint_w, hint_h)
        &&& if exists|i: int|
            0 <= i < support.formats@.len() && is_preferred_format(support.formats@[i]) {
            is_preferred_format(self.format)
        } else {
            support.formats@.len() > 0 && self.format == support.formats@[0]
        }
        &&& exists|i: int| 0 <= i < support.formats@.len() && self.format == support.formats@[i]
    }
}

/// Plans one swapchain generation from the surface's support set and the
/// current window extent; fails naming the capability when the support set
/// is empty.
pub fn plan_swapchain(support: &SwapchainSupport, hint_w: u32, hint_h: u32) -> (r: Result<
    SwapchainConfig,
    EngineError,
>)
    requires
        support.capabilities.wf(),
        support.capabilities.min_image_count < u32::MAX,
    ensures
        match r {
            Ok(cfg) => cfg.planned_from(*support, hint_w, hint_h),
            Err(e) => {
                &&& (support.formats@.len() == 0 || support.present_modes@.len() == 0)
                &&& e == if support.formats@.len() == 0 {
                    (EngineError::MissingCapability { what: Capability::SurfaceFormat })
                } else {
                    (EngineError::MissingCapability { what: Capability::PresentMode })
                }
            },
        },
        r is Ok <==> (support.formats@.len() > 0 && support.present_modes@.len() > 0),
{
    if support.formats.len() == 0 {
        return Err(EngineError::MissingCapability { what: Capability::SurfaceFormat });
    }
    if support.present_modes.len() == 0 {
        return Err(EngineError::MissingCapability { what: Capability::PresentMode });
    }
    let format = choose_surface_format(&support.formats);
    let present_mode = choose_present_mode(&support.present_modes);
    let image_count = choose_image_count(&support.capabilities);
    let (width, height) = choose_extent(&support.capabilities, hint_w, hint_h);
    Ok(SwapchainConfig { format, present_mode, image_count, width, height })
}

} // verus!
