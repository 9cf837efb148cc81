//! The public face of the Edge Scanner: four-directional edge finding
//! around a cursor, and the two edge-snapping strategies.

use vstd::prelude::*;

use crate::image::LumaImage;
use crate::scan::Axis;
use crate::scan::EDGE_THRESHOLD;
use crate::scan::axis_len;
use crate::scan::delta_scan;
use crate::scan::grad_scan;
use crate::scan::lemma_delta_scan_in_range;
use crate::scan::lemma_grad_scan_in_range;
use crate::scan::line_count;
use crate::scan::lum_on;
use crate::scan::scan_bounded;
use crate::scan::scan_horizontal;
use crate::scan::scan_horizontal_limited;
use crate::scan::scan_vertical;
use crate::scan::scan_vertical_limited;

verus! {

/// How close to an edge a snapping scan will look before giving up.
pub const SNAP_DISTANCE: u32 = 200;

/// The bounding box of the content region surrounding a point: four valid
/// pixel coordinates.
#[derive(Clone, Copy, Debug, PartialEq, Eq, Structural)]
pub struct Edges {
    pub left: u32,
    pub right: u32,
    pub up: u32,
    pub down: u32,
}

/// What `find_edges` returns: each direction's gradient-mode scan result,
/// with the buffer boundary as the default where no edge was found.
pub open spec fn find_edges_spec(img: LumaImage, cx: int, cy: int) -> Edges {
    Edges {
        left: match grad_scan(img, Axis::Horizontal, cy, cx, -1, EDGE_THRESHOLD) {
            Some(v) => v,
            None => 0,
        },
        right: match grad_scan(img, Axis::Horizontal, cy, cx, 1, EDGE_THRESHOLD) {
            Some(v) => v,
            None => (img.spec_width() - 1) as u32,
        },
        up: match grad_scan(img, Axis::Vertical, cx, cy, -1, EDGE_THRESHOLD) {
            Some(v) => v,
            None => 0,
        },
        down: match grad_scan(img, Axis::Vertical, cx, cy, 1, EDGE_THRESHOLD) {
            Some(v) => v,
            None => (img.spec_height() - 1) as u32,
        },
    }
}

/// Computes the four boundary coordinates of the object under the cursor:
/// one unbounded gradient-mode scan per direction, defaulting to the buffer
/// boundary where no edge exists. Always yields a valid rectangle that
/// contains the cursor; this function has no failure mode.
pub fn find_edges(img: &LumaImage, cursor_x: u32, cursor_y: u32) -> (r: Edges)
    requires
        img.wf(),
        cursor_x < img.spec_width(),
        cursor_y < img.spec_height(),
    ensures
        r == find_edges_spec(*img, cursor_x as int, cursor_y as int),
        r.left <= cursor_x,
        cursor_x <= r.right < img.spec_width(),
        r.up <= cursor_y,
        cursor_y <= r.down < img.spec_height(),
{
    proof {
        lemma_grad_scan_in_range(
            *img,
            Axis::Horizontal,
            cursor_y as int,
            cursor_x as int,
            -1,
            EDGE_THRESHOLD,
        );
        lemma_grad_scan_in_range(
            *img,
            Axis::Horizontal,
            cursor_y as int,
            cursor_x as int,
            1,
            EDGE_THRESHOLD,
        );
        lemma_grad_scan_in_range(
            *img,
            Axis::Vertical,
            cursor_x as int,
            cursor_y as int,
            -1,
            EDGE_THRESHOLD,
        );
        lemma_grad_scan_in_range(
            *img,
            Axis::Vertical,
            cursor_x as int,
            cursor_y as int,
            1,
            EDGE_THRESHOLD,
        );
    }
    let left: u32 = match scan_horizontal(img, cursor_x, cursor_y, -1) {
        Some(v) => v,
        None => 0,
    };
    let right: u32 = match scan_horizontal(img, cursor_x, cursor_y, 1) {
        Some(v) => v,
        None => img.width() - 1,
    };
    let up: u32 = match scan_vertical(img, cursor_x, cursor_y, -1) {
        Some(v) => v,
        None => 0,
    };
    let down: u32 = match scan_vertical(img, cursor_x, cursor_y, 1) {
        Some(v) => v,
        None => img.height() - 1,
    };
    Edges { left, right, up, down }
}

/// What a single-point snap returns: the bounded scan's result in the
/// preferred direction if it found an edge, else the result of one retry in
/// the opposite direction, else the start coordinate unchanged.
pub open spec fn snap_point_spec(
    img: LumaImage,
    axis: Axis,
    line: int,
    start: int,
    prefer_dir: int,
) -> u32 {
    let ref_lum = lum_on(img, axis, line, start);
    match delta_scan(
        img,
        axis,
        line,
        ref_lum,
        start,
        prefer_dir,
        EDGE_THRESHOLD,
        SNAP_DISTANCE as int,
    ) {
        Some(e) => e,
        None => match delta_scan(
            img,
            axis,
            line,
            ref_lum,
            start,
            -prefer_dir,
            EDGE_THRESHOLD,
            SNAP_DISTANCE as int,
        ) {
            Some(e) => e,
            None => start as u32,
        },
    }
}

/// Finds the nearest vertical edge from a given x position, preferring the
/// inward direction: `prefer_direction` is 1 to prefer rightward (for a
/// left edge), -1 to prefer leftward (for a right edge). Falls back to the
/// opposite direction, and keeps `x` where neither scan finds an edge.
pub fn snap_to_nearest_edge_x(img: &LumaImage, x: u32, y: u32, prefer_direction: i32) -> (r: u32)
    requires
        img.wf(),
        x < img.spec_width(),
        y < img.spec_height(),
        prefer_direction == 1 || prefer_direction == -1,
    ensures
        r == snap_point_spec(*img, Axis::Horizontal, y as int, x as int, prefer_direction as int),
        r < img.spec_width(),
        x - SNAP_DISTANCE <= r <= x + SNAP_DISTANCE,
{
    proof {
        lemma_delta_scan_in_range(
            *img,
            Axis::Horizontal,
            y as int,
            img.lum(x as int, y as int),
            x as int,
            prefer_direction as int,
            EDGE_THRESHOLD,
            SNAP_DISTANCE as int,
        );
        lemma_delta_scan_in_range(
            *img,
            Axis::Horizontal,
            y as int,
            img.lum(x as int, y as int),
            x as int,
            -prefer_direction as int,
            EDGE_THRESHOLD,
            SNAP_DISTANCE as int,
        );
    }
    let preferred_edge = scan_horizontal_limited(img, x, y, prefer_direction, SNAP_DISTANCE);
    if let Some(edge) = preferred_edge {
        return edge;
    }
    let fallback_edge = scan_horizontal_limited(img, x, y, -prefer_direction, SNAP_DISTANCE);
    match fallback_edge {
        Some(edge) => edge,
        None => x,
    }
}

/// Finds the nearest horizontal edge from a given y position, preferring
/// the inward direction: `prefer_direction` is 1 to prefer downward (for a
/// top edge), -1 to prefer upward (for a bottom edge). Falls back to the
/// opposite direction, and keeps `y` where neither scan finds an edge.
pub fn snap_to_nearest_edge_y(img: &LumaImage, x: u32, y: u32, prefer_direction: i32) -> (r: u32)
    requires
        img.wf(),
        x < img.spec_width(),
        y < img.spec_height(),
        prefer_direction == 1 || prefer_direction == -1,
    ensures
        r == snap_point_spec(*img, Axis::Vertical, x as int, y as int, prefer_direction as int),
        r < img.spec_height(),
        y - SNAP_DISTANCE <= r <= y + SNAP_DISTANCE,
{
    proof {
        lemma_delta_scan_in_range(
            *img,
            Axis::Vertical,
            x as int,
            img.lum(x as int, y as int),
            y as int,
            prefer_direction as int,
            EDGE_THRESHOLD,
            SNAP_DISTANCE as int,
        );
        lemma_delta_scan_in_range(
            *img,
            Axis::Vertical,
            x as int,
            img.lum(x as int, y as int),
            y as int,
            -prefer_direction as int,
            EDGE_THRESHOLD,
            SNAP_DISTANCE as int,
        );
    }
    let preferred_edge = scan_vertical_limited(img, x, y, prefer_direction, SNAP_DISTANCE);
    if let Some(edge) = preferred_edge {
        return edge;
    }
    let fallback_edge = scan_vertical_limited(img, x, y, -prefer_direction, SNAP_DISTANCE);
    match fallback_edge {
        Some(edge) => edge,
        None => y,
    }
}

/// Single-point snap along either axis: scans along x when `axis` is
/// `Horizontal`, along y when it is `Vertical`.
pub fn snap_to_nearest_edge(
    img: &LumaImage,
    x: u32,
    y: u32,
    axis: Axis,
    prefer_direction: i32,
) -> (r: u32)
    requires
        img.wf(),
        x < img.spec_width(),
        y < img.spec_height(),
        prefer_direction == 1 || prefer_direction == -1,
    ensures
        axis == Axis::Horizontal ==> r == snap_point_spec(
            *img,
            Axis::Horizontal,
            y as int,
            x as int,
            prefer_direction as int,
        ),
        axis == Axis::Vertical ==> r == snap_point_spec(
            *img,
            Axis::Vertical,
            x as int,
            y as int,
            prefer_direction as int,
        ),
{
    match axis {
        Axis::Horizontal => snap_to_nearest_edge_x(img, x, y, prefer_direction),
        Axis::Vertical => snap_to_nearest_edge_y(img, x, y, prefer_direction),
    }
}

/// One line of the sweep: the bounded scan from `start` along `line`,
/// referenced to that line's own start luminance.
pub open spec fn snap_line_scan(
    img: LumaImage,
    axis: Axis,
    line: int,
    start: int,
    dir: int,
    threshold: u8,
    max_distance: int,
) -> Option<u32> {
    delta_scan(
        img,
        axis,
        line,
        lum_on(img, axis, line, start),
        start,
        dir,
        threshold,
        max_distance,
    )
}

/// Reduction step of the sweep: keep the result closest to the original
/// edge along the direction of travel — the minimum for an
/// outward-positive scan, the maximum for an outward-negative one.
pub open spec fn combine_best(a: Option<u32>, b: Option<u32>, dir: int) -> Option<u32> {
    match (a, b) {
        (Option::None, Option::None) => None,
        (Option::Some(x), Option::None) => Some(x),
        (Option::None, Option::Some(y)) => Some(y),
        (Option::Some(x), Option::Some(y)) => if dir == 1 {
            if x <= y {
                Some(x)
            } else {
                Some(y)
            }
        } else {
            if x >= y {
                Some(x)
            } else {
                Some(y)
            }
        },
    }
}

/// The sweep's reduction over lines `line_start ..= line_end`: the best of
/// each line's bounded scan result, or `None` where no line found an edge.
pub open spec fn sweep_best(
    img: LumaImage,
    axis: Axis,
    fixed: int,
    line_start: int,
    line_end: int,
    dir: int,
    threshold: u8,
    max_distance: int,
) -> Option<u32>
    decreases line_end - line_start + 1,
{
    if line_end < line_start {
        None
    } else {
        combine_best(
            sweep_best(img, axis, fixed, line_start, line_end - 1, dir, threshold, max_distance),
            snap_line_scan(img, axis, line_end, fixed, dir, threshold, max_distance),
            dir,
        )
    }
}

/// What `snap_edge` returns: the sweep's reduction, or the original
/// coordinate unchanged where no line found an edge.
pub open spec fn snap_edge_spec(
    img: LumaImage,
    axis: Axis,
    fixed: int,
    line_start: int,
    line_end: int,
    dir: int,
) -> u32 {
    match sweep_best(
        img,
        axis,
        fixed,
        line_start,
        line_end,
        dir,
        EDGE_THRESHOLD,
        SNAP_DISTANCE as int,
    ) {
        Some(m) => m,
        None => fixed as u32,
    }
}

/// Aligns one straight side of a selection rectangle to nearby content:
/// one bounded scan per line of `range_start ..= range_end` (rows for a
/// `Horizontal` scan axis, columns for `Vertical`), reduced to the single
/// found coordinate closest to the original edge along the direction of
/// travel, so the snapped line cuts into no scanned line's content. Keeps
/// `fixed_coord` where no line finds an edge within the snap distance.
pub fn snap_edge(
    img: &LumaImage,
    fixed_coord: u32,
    range_start: u32,
    range_end: u32,
    axis: Axis,
    direction: i32,
) -> (r: u32)
    requires
        img.wf(),
        direction == 1 || direction == -1,
        range_start <= range_end,
        fixed_coord < axis_len(*img, axis),
        range_end < line_count(*img, axis),
    ensures
        r == snap_edge_spec(
            *img,
            axis,
            fixed_coord as int,
            range_start as int,
            range_end as int,
            direction as int,
        ),
{
    let mut best: Option<u32> = None;
    let mut line: u32 = range_start;
    while line <= range_end
        invariant
            img.wf(),
            direction == 1 || direction == -1,
            fixed_coord < axis_len(*img, axis),
            range_end < line_count(*img, axis),
            range_start <= line <= range_end + 1,
            best == sweep_best(
                *img,
                axis,
                fixed_coord as int,
                range_start as int,
                line as int - 1,
                direction as int,
                EDGE_THRESHOLD,
                SNAP_DISTANCE as int,
            ),
        decreases range_end + 1 - line,
    {
        let found = scan_bounded(img, axis, line, fixed_coord, direction, EDGE_THRESHOLD,
            SNAP_DISTANCE);
        best = match (best, found) {
            (None, f) => f,
            (Some(b), None) => Some(b),
            (Some(b), Some(f)) => if direction == 1 {
                if b <= f {
                    Some(b)
                } else {
                    Some(f)
                }
            } else {
                if b >= f {
                    Some(b)
                } else {
                    Some(f)
                }
            },
        };
        line = line + 1;
    }
    match best {
        Some(m) => m,
        None => fixed_coord,
    }
}

} // verus!
