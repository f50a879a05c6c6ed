//! Decisions made when the presentation surface is built: how many images
//! the rotating set gets, which pixel format and composite-alpha mode are
//! selected, and which physical device is preferred. The platform calls
//! that report the capabilities happen outside; the choices among the
//! reported values are made, and specified, here.

use vstd::prelude::*;

verus! {

/// The rotating image set holds at least two images (double buffering),
/// and otherwise as many as the platform's reported minimum.
pub fn swapchain_image_count(min_image_count: u32) -> (r: u32)
    ensures
        r == if min_image_count >= 2 {
            min_image_count as int
        } else {
            2
        },
{
    if min_image_count >= 2 {
        min_image_count
    } else {
        2
    }
}

/// What matters about one supported surface format: whether its pixel
/// format is sRGB-encoded and whether its color space is non-linear sRGB.
#[derive(Debug, Clone, Copy, PartialEq, Eq, Structural)]
pub struct SurfaceFormatInfo {
    pub srgb_color: bool,
    pub srgb_nonlinear: bool,
}

/// A format is preferred when it is sRGB-encoded in the non-linear sRGB
/// color space.
pub open spec fn format_preferred(f: SurfaceFormatInfo) -> bool {
    f.srgb_color && f.srgb_nonlinear
}

/// Picks the surface format: the first preferred one, or the first
/// reported format when none is preferred.
pub fn choose_format(formats: &Vec<SurfaceFormatInfo>) -> (r: usize)
    requires
        formats@.len() > 0,
    ensures
        r < formats@.len(),
        (exists|i: int| 0 <= i < formats@.len() && format_preferred(#[trigger] formats@[i]))
            ==> format_preferred(formats@[r as int]) && forall|j: int|
            0 <= j < r ==> !format_preferred(#[trigger] formats@[j]),
        (forall|i: int| 0 <= i < formats@.len() ==> !format_preferred(#[trigger] formats@[i]))
            ==> r == 0,
{
    let mut i: usize = 0;
    while i < formats.len()
        invariant
            i <= formats@.len(),
            forall|j: int| 0 <= j < i ==> !format_preferred(#[trigger] formats@[j]),
        decreases formats@.len() - i,
    {
        let f = formats[i];
        if f.srgb_color && f.srgb_nonlinear {
            return i;
        }
        i = i + 1;
    }
    0
}

/// A composite-alpha mode the platform reports as supported.
#[derive(Debug, Clone, Copy, PartialEq, Eq, Structural)]
pub enum CompositeAlphaKind {
    Opaque,
    PreMultiplied,
    PostMultiplied,
    Inherit,
}

/// Picks the composite-alpha mode: opaque when the platform supports it,
/// otherwise the first supported mode.
pub fn choose_composite_alpha(supported: &Vec<CompositeAlphaKind>) -> (r: usize)
    requires
        supported@.len() > 0,
    ensures
        r < supported@.len(),
        (exists|i: int|
            0 <= i < supported@.len() && #[trigger] supported@[i] == CompositeAlphaKind::Opaque)
            ==> supported@[r as int] == CompositeAlphaKind::Opaque,
        (forall|i: int|
            0 <= i < supported@.len() ==> #[trigger] supported@[i] != CompositeAlphaKind::Opaque)
            ==> r == 0,
{
    let mut i: usize = 0;
    while i < supported.len()
        invariant
            i <= supported@.len(),
            forall|j: int| 0 <= j < i ==> #[trigger] supported@[j] != CompositeAlphaKind::Opaque,
        decreases supported@.len() - i,
    {
        let k = supported[i];
        if matches!(k, CompositeAlphaKind::Opaque) {
            return i;
        }
        i = i + 1;
    }
    0
}

/// The classes a physical device can fall into, in the order the engine
/// cares about them.
#[derive(Debug, Clone, Copy, PartialEq, Eq, Structural)]
pub enum DeviceKind {
    DiscreteGpu,
    IntegratedGpu,
    VirtualGpu,
    Cpu,
    Other,
}

/// The preference rank of a device class; smaller is better.
pub open spec fn device_rank_spec(kind: DeviceKind) -> u32 {
    match kind {
        DeviceKind::DiscreteGpu => 0u32,
        DeviceKind::IntegratedGpu => 1u32,
        DeviceKind::VirtualGpu => 2u32,
        DeviceKind::Cpu => 3u32,
        DeviceKind::Other => 4u32,
    }
}

/// The preference rank of a device class, as a runtime value.
pub fn device_rank(kind: &DeviceKind) -> (r: u32)
    ensures
        r == device_rank_spec(*kind),
{
    match kind {
        DeviceKind::DiscreteGpu => 0,
        DeviceKind::IntegratedGpu => 1,
        DeviceKind::VirtualGpu => 2,
        DeviceKind::Cpu => 3,
        DeviceKind::Other => 4,
    }
}

/// Picks the viable device with the best (smallest) rank; among equally
/// ranked devices the first wins. `None` exactly when no device is
/// viable.
pub fn select_device(ranks: &Vec<u32>) -> (r: Option<usize>)
    ensures
        r is None <==> ranks@.len() == 0,
        r matches Some(i) ==> i < ranks@.len() && (forall|j: int|
            0 <= j < ranks@.len() ==> ranks@[i as int] <= #[trigger] ranks@[j]) && (forall|j: int|
            0 <= j < i ==> ranks@[i as int] < #[trigger] ranks@[j]),
{
    if ranks.len() == 0 {
        return None;
    }
    let mut best: usize = 0;
    let mut i: usize = 1;
    while i < ranks.len()
        invariant
            best < i <= ranks@.len(),
            forall|j: int| 0 <= j < i ==> ranks@[best as int] <= #[trigger] ranks@[j],
            forall|j: int| 0 <= j < best ==> ranks@[best as int] < #[trigger] ranks@[j],
        decreases ranks@.len() - i,
    {
        if ranks[i] < ranks[best] {
            best = i;
        }
        i = i + 1;
    }
    Some(best)
}

} // verus!
