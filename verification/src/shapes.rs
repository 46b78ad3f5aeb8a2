//! The rounded shapes of the candidate window: the four corner arcs of a
//! rounded rectangle path, and the window region for a corner radius.

use crate::candidate_rows::Bounds;
use crate::colors::clamped_radius;
use crate::layout::in_i32;
use vstd::prelude::*;

verus! {

/// One arc of a path: the ellipse's bounding box and the angles, in
/// degrees, where the arc starts and how far it sweeps.
#[derive(Clone, Copy, Debug, PartialEq, Eq, Structural)]
pub struct PathArc {
    pub x: i32,
    pub y: i32,
    pub width: i32,
    pub height: i32,
    pub start_degrees: i32,
    pub sweep_degrees: i32,
}

/// The corner diameter of a rounded rectangle: twice the (non-negative)
/// radius, at most the width and the height (each at least 1).
pub open spec fn corner_diameter(b: Bounds, radius: int) -> int {
    let w = if b.right - b.left < 1 {
        1
    } else {
        b.right - b.left
    };
    let h = if b.bottom - b.top < 1 {
        1
    } else {
        b.bottom - b.top
    };
    let r = if radius < 0 {
        0
    } else {
        radius
    };
    let d = if w < r * 2 {
        w
    } else {
        r * 2
    };
    if h < d {
        h
    } else {
        d
    }
}

pub open spec fn arc(x: int, y: int, w: int, h: int, start: int) -> PathArc {
    PathArc { x: x as i32, y: y as i32, width: w as i32, height: h as i32, start_degrees: start as i32, sweep_degrees: 90 }
}

/// The four corner arcs, clockwise from the top-left corner: quarter
/// circles of the corner diameter, or single-pixel corners when it is 0.
pub open spec fn spec_rounded_arcs(b: Bounds, radius: int) -> Seq<PathArc> {
    let d = corner_diameter(b, radius);
    if d == 0 {
        seq![
            arc(b.left as int, b.top as int, 1, 1, 0),
            arc(b.right - 1, b.top as int, 1, 1, 90),
            arc(b.right - 1, b.bottom - 1, 1, 1, 180),
            arc(b.left as int, b.bottom - 1, 1, 1, 270),
        ]
    } else {
        seq![
            arc(b.left as int, b.top as int, d, d, 180),
            arc(b.right - d, b.top as int, d, d, 270),
            arc(b.right - d, b.bottom - d, d, d, 0),
            arc(b.left as int, b.bottom - d, d, d, 90),
        ]
    }
}

/// Whether the path's arithmetic stays within `i32`.
pub open spec fn arcs_fit(b: Bounds, radius: int) -> bool {
    &&& in_i32(b.right - b.left)
    &&& in_i32(b.bottom - b.top)
    &&& in_i32((if radius < 0 {
        0
    } else {
        radius
    }) * 2)
    &&& corner_diameter(b, radius) == 0 ==> in_i32(b.right - 1) && in_i32(b.bottom - 1)
    &&& corner_diameter(b, radius) != 0 ==> in_i32(b.right - corner_diameter(b, radius)) && in_i32(
        b.bottom - corner_diameter(b, radius),
    )
}

/// The corner arcs of the rounded rectangle `b`.
pub fn rounded_arcs(b: Bounds, radius: i32) -> (arcs: Vec<PathArc>)
    requires
        arcs_fit(b, radius as int),
    ensures
        arcs@ == spec_rounded_arcs(b, radius as int),
{
    let dw = b.right - b.left;
    let width = if dw < 1 {
        1
    } else {
        dw
    };
    let dh = b.bottom - b.top;
    let height = if dh < 1 {
        1
    } else {
        dh
    };
    let r = if radius < 0 {
        0
    } else {
        radius
    };
    let mut d = r * 2;
    if width < d {
        d = width;
    }
    if height < d {
        d = height;
    }
    let arcs = if d == 0 {
        let last_x = b.right - 1;
        let last_y = b.bottom - 1;
        let a0 = PathArc { x: b.left, y: b.top, width: 1, height: 1, start_degrees: 0, sweep_degrees: 90 };
        let a1 = PathArc { x: last_x, y: b.top, width: 1, height: 1, start_degrees: 90, sweep_degrees: 90 };
        let a2 = PathArc { x: last_x, y: last_y, width: 1, height: 1, start_degrees: 180, sweep_degrees: 90 };
        let a3 = PathArc { x: b.left, y: last_y, width: 1, height: 1, start_degrees: 270, sweep_degrees: 90 };
        vec![a0, a1, a2, a3]
    } else {
        let far_x = b.right - d;
        let far_y = b.bottom - d;
        let a0 = PathArc { x: b.left, y: b.top, width: d, height: d, start_degrees: 180, sweep_degrees: 90 };
        let a1 = PathArc { x: far_x, y: b.top, width: d, height: d, start_degrees: 270, sweep_degrees: 90 };
        let a2 = PathArc { x: far_x, y: far_y, width: d, height: d, start_degrees: 0, sweep_degrees: 90 };
        let a3 = PathArc { x: b.left, y: far_y, width: d, height: d, start_degrees: 90, sweep_degrees: 90 };
        vec![a0, a1, a2, a3]
    };
    arcs
}

/// The window region for a window of the given size.
#[derive(Clone, Copy, Debug, PartialEq, Eq, Structural)]
pub enum WindowRegion {
    /// A plain rectangle `(0, 0)`-`(width, height)`.
    Rect { width: i32, height: i32 },
    /// A rounded rectangle `(0, 0)`-`(right, bottom)` with elliptic corners.
    RoundRect { right: i32, bottom: i32, corner_width: i32, corner_height: i32 },
}

/// The window's region: rounded by the clamped radius, or plain when that
/// radius is 0.
pub fn window_region(width: i32, height: i32, configured_radius: i32) -> (r: WindowRegion)
    requires
        width < i32::MAX,
        height < i32::MAX,
    ensures
        clamped_radius(width as int, height as int, configured_radius as int) == 0 ==> r == (WindowRegion::Rect {
            width,
            height,
        }),
        clamped_radius(width as int, height as int, configured_radius as int) != 0 ==> r
            == (WindowRegion::RoundRect {
            right: (width + 1) as i32,
            bottom: (height + 1) as i32,
            corner_width: (clamped_radius(width as int, height as int, configured_radius as int) * 2) as i32,
            corner_height: (clamped_radius(width as int, height as int, configured_radius as int) * 2) as i32,
        }),
{
    let radius = crate::colors::clamped_corner_radius(width, height, configured_radius);
    if radius == 0 {
        WindowRegion::Rect { width, height }
    } else {
        WindowRegion::RoundRect { right: width + 1, bottom: height + 1, corner_width: radius * 2, corner_height: radius * 2 }
    }
}

} // verus!
