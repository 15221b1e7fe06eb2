//! Re-centering the camera's view around occluding UI panels.
//!
//! When panels docked at the window's edges take pixels away from the
//! viewport, the scene's look target would drift off the centre of what
//! remains visible. The camera is therefore slid along its local right and
//! up axes by half the occluded fraction of the frustum. The pixel-exact
//! part of that computation lives here; the caller scales the result by the
//! frustum size per window pixel, which depends on the projection.

use vstd::prelude::*;

verus! {

/// The pixels that docked panels take from each edge of the window.
#[derive(Clone, Copy, Debug, PartialEq, Eq)]
pub struct PanelDims {
    pub left: u32,
    pub right: u32,
    pub top: u32,
    pub bottom: u32,
}

/// The signed pixel budget of the re-centering slide, one value per screen
/// axis. The camera's displacement along its local right axis is
/// `x * frustum_width / (2 * window_width)`, and along its local up axis
/// `y * frustum_height / (2 * window_height)`.
#[derive(Clone, Copy, Debug, PartialEq, Eq)]
pub struct RecenterShift {
    pub x: i64,
    pub y: i64,
}

/// Computes the signed pixel budget that keeps the look target centred in
/// the unoccluded viewport: on each axis, the pixels taken on the side the
/// slide moves away from, less the pixels taken on the side it moves toward.
/// A panel on the left alone gives a negative `x`, sliding the camera left;
/// a panel on the top alone gives a positive `y`, sliding it up.
pub fn recenter_shift(panels: &PanelDims) -> (s: RecenterShift)
    ensures
        s.x == panels.right - panels.left,
        s.y == panels.top - panels.bottom,
{
    let x: i64 = panels.right as i64 - panels.left as i64;
    let y: i64 = panels.top as i64 - panels.bottom as i64;
    RecenterShift { x, y }
}

} // verus!
