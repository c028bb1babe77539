//! The viewport synchronizer: projects the camera-preview panel's
//! center-anchored transform and unrounded size into the pixel rectangle
//! every external camera renders into.

use vstd::prelude::*;

verus! {

/// A render viewport in physical pixels: top-left corner and size.
#[derive(Clone, Copy, PartialEq, Eq, Structural, Debug)]
pub struct ViewportRect {
    pub x: u32,
    pub y: u32,
    pub width: u32,
    pub height: u32,
}

/// Pixels from a half-milli-pixel quantity, truncated the way a
/// float-to-unsigned cast truncates: fractions dropped, negatives to
/// zero, overflow saturated.
pub open spec fn spec_px_from_half_milli(t: int) -> u32 {
    if t <= 0 {
        0
    } else if t / 2000 >= u32::MAX as int {
        u32::MAX
    } else {
        (t / 2000) as u32
    }
}

/// Pixels from a milli-pixel quantity, truncated the same way.
pub open spec fn spec_px_from_milli(m: int) -> u32 {
    if m <= 0 {
        0
    } else if m / 1000 >= u32::MAX as int {
        u32::MAX
    } else {
        (m / 1000) as u32
    }
}

/// The viewport of a preview panel: its top-left corner is the center
/// minus half the size, truncated to whole pixels; the size is the
/// unrounded size truncated. Positions and sizes are in milli-pixels,
/// thousandths of a pixel, as the driver fixes the panel's fractional
/// screen coordinates.
pub open spec fn spec_viewport_rect(
    center_x: int,
    center_y: int,
    width: int,
    height: int,
) -> ViewportRect {
    ViewportRect {
        x: spec_px_from_half_milli(2 * center_x - width),
        y: spec_px_from_half_milli(2 * center_y - height),
        width: spec_px_from_milli(width),
        height: spec_px_from_milli(height),
    }
}

fn px_from_half_milli(t: i128) -> (r: u32)
    requires
        -0x80000000000000000000000000000000 < t,
    ensures
        r == spec_px_from_half_milli(t as int),
{
    if t <= 0 {
        0
    } else {
        let q = (t as u128) / 2000;
        if q >= 0xFFFF_FFFF {
            0xFFFF_FFFFu32
        } else {
            q as u32
        }
    }
}

fn px_from_milli(m: i64) -> (r: u32)
    ensures
        r == spec_px_from_milli(m as int),
{
    if m <= 0 {
        0
    } else {
        let q = (m as u64) / 1000;
        if q >= 0xFFFF_FFFF {
            0xFFFF_FFFFu32
        } else {
            q as u32
        }
    }
}

/// Recomputes the render viewport from the preview panel's on-screen
/// transform, in milli-pixels. Every camera but the editor's own overlay
/// camera receives this same rectangle.
pub fn update_camera_viewport(
    center_x_mpx: i64,
    center_y_mpx: i64,
    width_mpx: i64,
    height_mpx: i64,
) -> (r: ViewportRect)
    ensures
        r == spec_viewport_rect(
            center_x_mpx as int,
            center_y_mpx as int,
            width_mpx as int,
            height_mpx as int,
        ),
{
    let x = px_from_half_milli(2 * (center_x_mpx as i128) - (width_mpx as i128));
    let y = px_from_half_milli(2 * (center_y_mpx as i128) - (height_mpx as i128));
    let width = px_from_milli(width_mpx);
    let height = px_from_milli(height_mpx);
    ViewportRect { x, y, width, height }
}

} // verus!
