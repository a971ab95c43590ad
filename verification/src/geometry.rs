//! Popup placement: pure geometry on the captured environment state.
//!
//! Once the probe session has returned the monitor size and the pointer
//! position, the surrounding application sizes its popup window and anchors
//! it near the pointer by four edge margins. The popup goes to the right of
//! the pointer when there is room, else stays at the pointer hugging the
//! right edge, else goes to the left; and likewise below, at, or above it.

use vstd::prelude::*;
use crate::session::EnvironmentInfo;

verus! {

/// The four margins, from the screen's top, right, bottom and left edges.
#[derive(Debug, Clone, Copy, PartialEq, Eq, Structural)]
pub struct Margins {
    pub top: i32,
    pub right: i32,
    pub bottom: i32,
    pub left: i32,
}

/// The horizontal placement rule: keep the popup's left edge at the
/// pointer when the popup fits to the right of it, or when the pointer is
/// too close to the left edge to fit the popup on that side either; else
/// put its right edge at the pointer.
pub open spec fn margins_spec(env: EnvironmentInfo, width: int, height: int) -> Margins {
    let (right, left): (int, int) = if env.monitor_width - env.pointer_x >= width {
        (env.monitor_width - env.pointer_x - width, env.pointer_x as int)
    } else if env.pointer_x < width {
        (0, env.pointer_x as int)
    } else {
        (env.monitor_width - env.pointer_x, env.pointer_x - width)
    };
    let (bottom, top): (int, int) = if env.monitor_height - env.pointer_y >= height {
        (env.monitor_height - env.pointer_y - height, env.pointer_y as int)
    } else if env.pointer_y < height {
        (0, env.pointer_y as int)
    } else {
        (env.monitor_height - env.pointer_y, env.pointer_y - height)
    };
    Margins { top: top as i32, right: right as i32, bottom: bottom as i32, left: left as i32 }
}

/// Place a popup of at most `width` by `height` pixels next to the captured
/// pointer position. When the pointer lies on the monitor, every margin is
/// nonnegative, so the popup stays on screen.
pub fn calculate_margins(env: &EnvironmentInfo, width: i32, height: i32) -> (r: Margins)
    requires
        0 <= width,
        0 <= height,
        0 <= env.monitor_width,
        0 <= env.monitor_height,
        0 <= env.pointer_x,
        0 <= env.pointer_y,
    ensures
        r == margins_spec(*env, width as int, height as int),
        env.pointer_x <= env.monitor_width ==> 0 <= r.left && 0 <= r.right,
        env.pointer_y <= env.monitor_height ==> 0 <= r.top && 0 <= r.bottom,
{
    let margin_right: i32;
    let margin_left: i32;
    if env.monitor_width - env.pointer_x >= width {
        margin_right = env.monitor_width - env.pointer_x - width;
        margin_left = env.pointer_x;
    } else if env.pointer_x < width {
        margin_right = 0;
        margin_left = env.pointer_x;
    } else {
        margin_right = env.monitor_width - env.pointer_x;
        margin_left = env.pointer_x - width;
    }

    let margin_bottom: i32;
    let margin_top: i32;
    if env.monitor_height - env.pointer_y >= height {
        margin_bottom = env.monitor_height - env.pointer_y - height;
        margin_top = env.pointer_y;
    } else if env.pointer_y < height {
        margin_bottom = 0;
        margin_top = env.pointer_y;
    } else {
        margin_bottom = env.monitor_height - env.pointer_y;
        margin_top = env.pointer_y - height;
    }

    Margins { top: margin_top, right: margin_right, bottom: margin_bottom, left: margin_left }
}

/// The popup's maximum size: a quarter of the monitor in each dimension.
pub fn popup_max_size(env: &EnvironmentInfo) -> (r: (i32, i32))
    requires
        0 <= env.monitor_width,
        0 <= env.monitor_height,
    ensures
        r.0 == env.monitor_width / 4,
        r.1 == env.monitor_height / 4,
{
    (env.monitor_width / 4, env.monitor_height / 4)
}

} // verus!
