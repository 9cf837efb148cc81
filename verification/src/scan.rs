//! The scan primitive: walk pixel-by-pixel away from a start position along
//! one axis and report the first luminance discontinuity that exceeds a
//! threshold, or report that none was found before the buffer boundary (or,
//! in bounded mode, before the distance limit).

use vstd::prelude::*;

use crate::image::LumaImage;

verus! {

/// Minimum luminance delta that counts as an edge.
pub const EDGE_THRESHOLD: u8 = 5;

/// Selects whether a scan line is swept along x (fixed y) or along y
/// (fixed x).
#[derive(Clone, Copy, Debug, PartialEq, Eq, Structural)]
pub enum Axis {
    Horizontal,
    Vertical,
}

/// Number of positions along a scan line of the given axis.
pub open spec fn axis_len(img: LumaImage, axis: Axis) -> int {
    match axis {
        Axis::Horizontal => img.spec_width() as int,
        Axis::Vertical => img.spec_height() as int,
    }
}

/// Number of distinct scan lines of the given axis.
pub open spec fn line_count(img: LumaImage, axis: Axis) -> int {
    match axis {
        Axis::Horizontal => img.spec_height() as int,
        Axis::Vertical => img.spec_width() as int,
    }
}

/// The luminance sample at position `pos` of scan line `line`.
pub open spec fn lum_on(img: LumaImage, axis: Axis, line: int, pos: int) -> u8 {
    match axis {
        Axis::Horizontal => img.lum(pos, line),
        Axis::Vertical => img.lum(line, pos),
    }
}

/// Absolute difference of two luminance samples.
pub open spec fn lum_delta(a: u8, b: u8) -> int {
    if a >= b {
        a - b
    } else {
        b - a
    }
}

/// Positions left to visit before the buffer boundary stops a scan.
pub open spec fn scan_measure(len: int, pos: int, dir: int) -> int {
    if dir == 1 {
        len - pos
    } else {
        pos + 1
    }
}

/// Unbounded gradient-mode scan, starting with `pos` as the last position
/// known to lie inside the uniform region. Each step compares the next
/// pixel to the one before it; on the first delta above `threshold` the
/// result is the last pixel before the jump, and reaching the buffer
/// boundary yields `None`.
pub open spec fn grad_scan(
    img: LumaImage,
    axis: Axis,
    line: int,
    pos: int,
    dir: int,
    threshold: u8,
) -> Option<u32>
    decreases scan_measure(axis_len(img, axis), pos, dir),
{
    if dir != 1 && dir != -1 {
        None
    } else {
        let next = pos + dir;
        if next < 0 || next >= axis_len(img, axis) {
            None
        } else if lum_delta(lum_on(img, axis, line, next), lum_on(img, axis, line, pos))
            > threshold {
            Some(pos as u32)
        } else {
            grad_scan(img, axis, line, next, dir, threshold)
        }
    }
}

/// Bounded delta-from-start scan with `remaining` steps left, starting at
/// `pos`. Each step compares the next pixel to the scan origin's luminance
/// `ref_lum`; on the first delta above `threshold` the result is that edge
/// pixel itself, and exhausting the distance budget or reaching the buffer
/// boundary yields `None`.
pub open spec fn delta_scan(
    img: LumaImage,
    axis: Axis,
    line: int,
    ref_lum: u8,
    pos: int,
    dir: int,
    threshold: u8,
    remaining: int,
) -> Option<u32>
    decreases remaining,
{
    if remaining <= 0 || (dir != 1 && dir != -1) {
        None
    } else {
        let next = pos + dir;
        if next < 0 || next >= axis_len(img, axis) {
            None
        } else if lum_delta(lum_on(img, axis, line, next), ref_lum) > threshold {
            Some(next as u32)
        } else {
            delta_scan(img, axis, line, ref_lum, next, dir, threshold, remaining - 1)
        }
    }
}

/// A found gradient-mode edge lies between the start position and the
/// buffer boundary, on the interior side of the jump.
pub proof fn lemma_grad_scan_in_range(
    img: LumaImage,
    axis: Axis,
    line: int,
    pos: int,
    dir: int,
    threshold: u8,
)
    requires
        dir == 1 || dir == -1,
        0 <= pos < axis_len(img, axis),
    ensures
        dir == 1 ==> (grad_scan(img, axis, line, pos, dir, threshold) matches Some(v) ==> pos <= v
            < axis_len(img, axis) - 1),
        dir == -1 ==> (grad_scan(img, axis, line, pos, dir, threshold) matches Some(v) ==> 1 <= v
            <= pos),
    decreases scan_measure(axis_len(img, axis), pos, dir),
{
    let next = pos + dir;
    if 0 <= next && next < axis_len(img, axis) {
        if lum_delta(lum_on(img, axis, line, next), lum_on(img, axis, line, pos)) <= threshold {
            lemma_grad_scan_in_range(img, axis, line, next, dir, threshold);
        }
    }
}

/// A found bounded-mode edge lies within `remaining` pixels of the start,
/// strictly past it, and inside the buffer.
pub proof fn lemma_delta_scan_in_range(
    img: LumaImage,
    axis: Axis,
    line: int,
    ref_lum: u8,
    pos: int,
    dir: int,
    threshold: u8,
    remaining: int,
)
    requires
        dir == 1 || dir == -1,
        0 <= pos < axis_len(img, axis),
    ensures
        dir == 1 ==> (delta_scan(img, axis, line, ref_lum, pos, dir, threshold, remaining)
            matches Some(e) ==> pos < e <= pos + remaining && e < axis_len(img, axis)),
        dir == -1 ==> (delta_scan(img, axis, line, ref_lum, pos, dir, threshold, remaining)
            matches Some(e) ==> pos - remaining <= e < pos && 0 <= e),
    decreases remaining,
{
    if remaining > 0 {
        let next = pos + dir;
        if 0 <= next && next < axis_len(img, axis) {
            if lum_delta(lum_on(img, axis, line, next), ref_lum) <= threshold {
                lemma_delta_scan_in_range(
                    img,
                    axis,
                    line,
                    ref_lum,
                    next,
                    dir,
                    threshold,
                    remaining - 1,
                );
            }
        }
    }
}

/// Reads the sample at position `pos` of scan line `line`.
fn lum_at(img: &LumaImage, axis: Axis, line: u32, pos: u32) -> (l: u8)
    requires
        img.wf(),
        line < line_count(*img, axis),
        pos < axis_len(*img, axis),
    ensures
        l == lum_on(*img, axis, line as int, pos as int),
{
    match axis {
        Axis::Horizontal => img.get_luminance(pos, line),
        Axis::Vertical => img.get_luminance(line, pos),
    }
}

fn axis_len_of(img: &LumaImage, axis: Axis) -> (len: u32)
    ensures
        len == axis_len(*img, axis),
{
    match axis {
        Axis::Horizontal => img.width(),
        Axis::Vertical => img.height(),
    }
}

/// Unbounded gradient-mode traversal: finds where the uniform region around
/// the start position ends, comparing each pixel to its predecessor.
pub fn scan_gradient(
    img: &LumaImage,
    axis: Axis,
    line: u32,
    start: u32,
    direction: i32,
    threshold: u8,
) -> (r: Option<u32>)
    requires
        img.wf(),
        direction == 1 || direction == -1,
        line < line_count(*img, axis),
        start < axis_len(*img, axis),
    ensures
        r == grad_scan(*img, axis, line as int, start as int, direction as int, threshold),
{
    let len: u32 = axis_len_of(img, axis);
    let mut pos: u32 = start;
    let mut prev: u8 = lum_at(img, axis, line, start);
    loop
        invariant
            img.wf(),
            direction == 1 || direction == -1,
            len == axis_len(*img, axis),
            line < line_count(*img, axis),
            pos < len,
            prev == lum_on(*img, axis, line as int, pos as int),
            grad_scan(*img, axis, line as int, start as int, direction as int, threshold)
                == grad_scan(*img, axis, line as int, pos as int, direction as int, threshold),
        decreases scan_measure(len as int, pos as int, direction as int),
    {
        let next: u32;
        if direction == 1 {
            if pos + 1 >= len {
                return None;
            }
            next = pos + 1;
        } else {
            if pos == 0 {
                return None;
            }
            next = pos - 1;
        }
        let cur: u8 = lum_at(img, axis, line, next);
        let d: u8 = if cur >= prev {
            cur - prev
        } else {
            prev - cur
        };
        if d > threshold {
            return Some(pos);
        }
        pos = next;
        prev = cur;
    }
}

/// Bounded delta-from-start traversal: looks for any edge within
/// `max_distance` pixels of the start, comparing each pixel to the start's
/// luminance so the comparison never drifts.
pub fn scan_bounded(
    img: &LumaImage,
    axis: Axis,
    line: u32,
    start: u32,
    direction: i32,
    threshold: u8,
    max_distance: u32,
) -> (r: Option<u32>)
    requires
        img.wf(),
        direction == 1 || direction == -1,
        line < line_count(*img, axis),
        start < axis_len(*img, axis),
    ensures
        r == delta_scan(
            *img,
            axis,
            line as int,
            lum_on(*img, axis, line as int, start as int),
            start as int,
            direction as int,
            threshold,
            max_distance as int,
        ),
{
    let len: u32 = axis_len_of(img, axis);
    let ref_lum: u8 = lum_at(img, axis, line, start);
    let mut pos: u32 = start;
    let mut remaining: u32 = max_distance;
    loop
        invariant
            img.wf(),
            direction == 1 || direction == -1,
            len == axis_len(*img, axis),
            line < line_count(*img, axis),
            pos < len,
            ref_lum == lum_on(*img, axis, line as int, start as int),
            delta_scan(
                *img,
                axis,
                line as int,
                ref_lum,
                start as int,
                direction as int,
                threshold,
                max_distance as int,
            ) == delta_scan(
                *img,
                axis,
                line as int,
                ref_lum,
                pos as int,
                direction as int,
                threshold,
                remaining as int,
            ),
        decreases remaining,
    {
        if remaining == 0 {
            return None;
        }
        let next: u32;
        if direction == 1 {
            if pos + 1 >= len {
                return None;
            }
            next = pos + 1;
        } else {
            if pos == 0 {
                return None;
            }
            next = pos - 1;
        }
        let cur: u8 = lum_at(img, axis, line, next);
        let d: u8 = if cur >= ref_lum {
            cur - ref_lum
        } else {
            ref_lum - cur
        };
        if d > threshold {
            return Some(next);
        }
        pos = next;
        remaining = remaining - 1;
    }
}

/// Gradient-mode scan along a row: where does the object under the cursor
/// end to the left (`direction == -1`) or right (`direction == 1`)?
pub fn scan_horizontal(img: &LumaImage, start_x: u32, y: u32, direction: i32) -> (r:
    Option<u32>)
    requires
        img.wf(),
        direction == 1 || direction == -1,
        start_x < img.spec_width(),
        y < img.spec_height(),
    ensures
        r == grad_scan(
            *img,
            Axis::Horizontal,
            y as int,
            start_x as int,
            direction as int,
            EDGE_THRESHOLD,
        ),
{
    scan_gradient(img, Axis::Horizontal, y, start_x, direction, EDGE_THRESHOLD)
}

/// Gradient-mode scan along a column: where does the object under the
/// cursor end upward (`direction == -1`) or downward (`direction == 1`)?
pub fn scan_vertical(img: &LumaImage, x: u32, start_y: u32, direction: i32) -> (r: Option<u32>)
    requires
        img.wf(),
        direction == 1 || direction == -1,
        x < img.spec_width(),
        start_y < img.spec_height(),
    ensures
        r == grad_scan(
            *img,
            Axis::Vertical,
            x as int,
            start_y as int,
            direction as int,
            EDGE_THRESHOLD,
        ),
{
    scan_gradient(img, Axis::Vertical, x, start_y, direction, EDGE_THRESHOLD)
}

/// Bounded scan along a row for an edge within `max_distance` pixels.
pub fn scan_horizontal_limited(
    img: &LumaImage,
    start_x: u32,
    y: u32,
    direction: i32,
    max_distance: u32,
) -> (r: Option<u32>)
    requires
        img.wf(),
        direction == 1 || direction == -1,
        start_x < img.spec_width(),
        y < img.spec_height(),
    ensures
        r == delta_scan(
            *img,
            Axis::Horizontal,
            y as int,
            img.lum(start_x as int, y as int),
            start_x as int,
            direction as int,
            EDGE_THRESHOLD,
            max_distance as int,
        ),
{
    scan_bounded(img, Axis::Horizontal, y, start_x, direction, EDGE_THRESHOLD, max_distance)
}

/// Bounded scan along a column for an edge within `max_distance` pixels.
pub fn scan_vertical_limited(
    img: &LumaImage,
    x: u32,
    start_y: u32,
    direction: i32,
    max_distance: u32,
) -> (r: Option<u32>)
    requires
        img.wf(),
        direction == 1 || direction == -1,
        x < img.spec_width(),
        start_y < img.spec_height(),
    ensures
        r == delta_scan(
            *img,
            Axis::Vertical,
            x as int,
            img.lum(x as int, start_y as int),
            start_y as int,
            direction as int,
            EDGE_THRESHOLD,
            max_distance as int,
        ),
{
    scan_bounded(img, Axis::Vertical, x, start_y, direction, EDGE_THRESHOLD, max_distance)
}

} // verus!
