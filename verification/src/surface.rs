//! Overlay surface controller: the surface configuration and the one-time
//! minimal paint.
//!
//! The session creates one surface and promotes it to an overlay-class
//! layer: anchored to all four screen edges (so its negotiated size equals
//! the full output size), input-exclusive, and with an exclusive
//! screen-space zone reserved for it. After the first layout confirmation
//! the surface must commit buffer content to become visible and start
//! receiving input; [`buffer_layout`] computes the geometry of that buffer.
//! The caller performs the actual protocol calls with these values.

use vstd::prelude::*;

verus! {

/// How the overlay surface is to be configured before its first commit.
#[derive(Debug, Clone, Copy, PartialEq, Eq, Structural)]
pub struct OverlayConfig {
    /// Anchor to the top, right, bottom and left screen edges.
    pub anchor_top: bool,
    pub anchor_right: bool,
    pub anchor_bottom: bool,
    pub anchor_left: bool,
    /// Request exclusive keyboard interactivity.
    pub exclusive_keyboard: bool,
    /// The exclusive screen-space zone reserved for the surface, in pixels.
    pub exclusive_zone: i32,
}

/// The configuration the probe session uses: full-screen (all four edges
/// anchored), input-exclusive, with a large exclusive zone so that normal
/// windows cannot occupy the space.
pub fn overlay_config() -> (r: OverlayConfig)
    ensures
        r.anchor_top && r.anchor_right && r.anchor_bottom && r.anchor_left,
        r.exclusive_keyboard,
        r.exclusive_zone == 1000,
{
    OverlayConfig {
        anchor_top: true,
        anchor_right: true,
        anchor_bottom: true,
        anchor_left: true,
        exclusive_keyboard: true,
        exclusive_zone: 1000,
    }
}

/// The geometry of the pixel buffer the minimal paint allocates.
#[derive(Debug, Clone, Copy, PartialEq, Eq, Structural)]
pub struct BufferLayout {
    pub width: i32,
    pub height: i32,
    /// Bytes per row.
    pub stride: i32,
    /// Total bytes the buffer pool must hold.
    pub pool_size: usize,
}

/// Compute the buffer geometry for a minimal paint at the given size: one
/// row is `width * 4` bytes and the pool holds `width * height * 4` bytes.
/// A size whose buffer would not fit the pixel format's index range cannot
/// be painted, so the caller must reject it first, as a failed allocation
/// would be fatal anyway.
pub fn buffer_layout(width: i32, height: i32) -> (r: BufferLayout)
    requires
        0 <= width,
        0 <= height,
        width * 4 <= i32::MAX,
        width * height * 4 <= i32::MAX,
    ensures
        r.width == width,
        r.height == height,
        r.stride == width * 4,
        r.pool_size == width * height * 4,
{
    let stride: i32 = width * 4;
    proof {
        assert(0 <= width * height) by (nonlinear_arith)
            requires
                0 <= width,
                0 <= height,
        ;
    }
    let area: i32 = width * height;
    let bytes: i32 = area * 4;
    BufferLayout { width, height, stride, pool_size: bytes as usize }
}

} // verus!
