//! Properties of the scanner, stated over the same spec functions its
//! contracts use and proved once for all images.

use vstd::prelude::*;

use crate::edge_detection::Edges;
use crate::edge_detection::SNAP_DISTANCE;
use crate::edge_detection::find_edges_spec;
use crate::edge_detection::snap_edge_spec;
use crate::edge_detection::snap_line_scan;
use crate::edge_detection::snap_point_spec;
use crate::edge_detection::sweep_best;
use crate::image::LumaImage;
use crate::scan::Axis;
use crate::scan::EDGE_THRESHOLD;
use crate::scan::axis_len;
use crate::scan::delta_scan;
use crate::scan::grad_scan;
use crate::scan::line_count;
use crate::scan::lum_delta;
use crate::scan::lum_on;
use crate::scan::scan_measure;

verus! {

/// Every pixel of the image has luminance `v`.
pub open spec fn uniform_image(img: LumaImage, v: u8) -> bool {
    forall|x: int, y: int|
        0 <= x < img.spec_width() && 0 <= y < img.spec_height() ==> img.lum(x, y) == v
}

/// Over a uniform image a gradient-mode scan finds no edge in either
/// direction: every adjacent delta is zero.
pub proof fn lemma_grad_scan_uniform(
    img: LumaImage,
    v: u8,
    axis: Axis,
    line: int,
    pos: int,
    dir: int,
    threshold: u8,
)
    requires
        img.wf(),
        uniform_image(img, v),
        dir == 1 || dir == -1,
        0 <= line < line_count(img, axis),
        0 <= pos < axis_len(img, axis),
    ensures
        grad_scan(img, axis, line, pos, dir, threshold) is None,
    decreases scan_measure(axis_len(img, axis), pos, dir),
{
    let next = pos + dir;
    if 0 <= next && next < axis_len(img, axis) {
        assert(lum_on(img, axis, line, next) == v);
        assert(lum_on(img, axis, line, pos) == v);
        lemma_grad_scan_uniform(img, v, axis, line, next, dir, threshold);
    }
}

/// Over a uniform image `find_edges` yields exactly the buffer boundary on
/// all four sides: no internal edges exist.
pub proof fn lemma_find_edges_uniform(img: LumaImage, v: u8, cx: int, cy: int)
    requires
        img.wf(),
        uniform_image(img, v),
        0 <= cx < img.spec_width(),
        0 <= cy < img.spec_height(),
    ensures
        find_edges_spec(img, cx, cy) == (Edges {
            left: 0,
            right: (img.spec_width() - 1) as u32,
            up: 0,
            down: (img.spec_height() - 1) as u32,
        }),
{
    lemma_grad_scan_uniform(img, v, Axis::Horizontal, cy, cx, -1, EDGE_THRESHOLD);
    lemma_grad_scan_uniform(img, v, Axis::Horizontal, cy, cx, 1, EDGE_THRESHOLD);
    lemma_grad_scan_uniform(img, v, Axis::Vertical, cx, cy, -1, EDGE_THRESHOLD);
    lemma_grad_scan_uniform(img, v, Axis::Vertical, cx, cy, 1, EDGE_THRESHOLD);
}

/// Everything left of column `c` has luminance `a`, everything at or right
/// of it luminance `b`: a single sharp vertical step.
pub open spec fn vertical_step_image(img: LumaImage, c: int, a: u8, b: u8) -> bool {
    forall|x: int, y: int|
        0 <= x < img.spec_width() && 0 <= y < img.spec_height() ==> img.lum(x, y) == (if x < c {
            a
        } else {
            b
        })
}

/// Over a single sharp vertical step whose delta exceeds the threshold, a
/// rightward gradient-mode scan from any start left of the step returns
/// `c - 1`: the last pixel still inside the left region.
pub proof fn lemma_step_image_scan_right(
    img: LumaImage,
    c: int,
    a: u8,
    b: u8,
    threshold: u8,
    x: int,
    y: int,
)
    requires
        img.wf(),
        vertical_step_image(img, c, a, b),
        0 < c < img.spec_width(),
        lum_delta(b, a) > threshold,
        0 <= x < c,
        0 <= y < img.spec_height(),
    ensures
        grad_scan(img, Axis::Horizontal, y, x, 1, threshold) == Some((c - 1) as u32),
    decreases c - x,
{
    let next = x + 1;
    assert(lum_on(img, Axis::Horizontal, y, x) == a);
    if next == c {
        assert(lum_on(img, Axis::Horizontal, y, next) == b);
    } else {
        assert(lum_on(img, Axis::Horizontal, y, next) == a);
        lemma_step_image_scan_right(img, c, a, b, threshold, next, y);
    }
}

/// No pixel of scan line `line` whose position lies in `lo ..= hi` (and in
/// the buffer) deviates from `ref_lum` by more than `threshold`.
pub open spec fn line_clear(
    img: LumaImage,
    axis: Axis,
    line: int,
    ref_lum: u8,
    lo: int,
    hi: int,
    threshold: u8,
) -> bool {
    forall|p: int|
        lo <= p <= hi && 0 <= p < axis_len(img, axis) ==> lum_delta(
            lum_on(img, axis, line, p),
            ref_lum,
        ) <= threshold
}

/// A bounded scan examines no pixel past its distance budget: it reports
/// "not found" exactly when every pixel within `remaining` steps of the
/// start deviates from the reference by at most the threshold — even where
/// a qualifying edge lies further away.
pub proof fn lemma_delta_scan_none_iff(
    img: LumaImage,
    axis: Axis,
    line: int,
    ref_lum: u8,
    start: int,
    dir: int,
    threshold: u8,
    remaining: int,
)
    requires
        dir == 1 || dir == -1,
        0 <= start < axis_len(img, axis),
    ensures
        dir == 1 ==> (delta_scan(img, axis, line, ref_lum, start, dir, threshold, remaining)
            is None <==> line_clear(img, axis, line, ref_lum, start + 1, start + remaining,
            threshold)),
        dir == -1 ==> (delta_scan(img, axis, line, ref_lum, start, dir, threshold, remaining)
            is None <==> line_clear(img, axis, line, ref_lum, start - remaining, start - 1,
            threshold)),
    decreases remaining,
{
    if remaining > 0 {
        let next = start + dir;
        if 0 <= next && next < axis_len(img, axis) {
            if lum_delta(lum_on(img, axis, line, next), ref_lum) <= threshold {
                lemma_delta_scan_none_iff(
                    img,
                    axis,
                    line,
                    ref_lum,
                    next,
                    dir,
                    threshold,
                    remaining - 1,
                );
            }
        }
    }
}

/// Outward-positive `snap_edge` never cuts into any scanned line's content:
/// wherever line `l` of the sweep found an edge `e`, the snapped coordinate
/// is at most `e`; outward-negative, at least `e`.
pub proof fn lemma_snap_edge_bound(
    img: LumaImage,
    axis: Axis,
    fixed: int,
    line_start: int,
    line_end: int,
    dir: int,
    l: int,
    e: u32,
)
    requires
        dir == 1 || dir == -1,
        line_start <= l <= line_end,
        snap_line_scan(img, axis, l, fixed, dir, EDGE_THRESHOLD, SNAP_DISTANCE as int) == Some(e),
    ensures
        sweep_best(
            img,
            axis,
            fixed,
            line_start,
            line_end,
            dir,
            EDGE_THRESHOLD,
            SNAP_DISTANCE as int,
        ) is Some,
        dir == 1 ==> snap_edge_spec(img, axis, fixed, line_start, line_end, dir) <= e,
        dir == -1 ==> snap_edge_spec(img, axis, fixed, line_start, line_end, dir) >= e,
    decreases line_end - line_start + 1,
{
    if l < line_end {
        lemma_snap_edge_bound(img, axis, fixed, line_start, line_end - 1, dir, l, e);
    }
}

/// The single-point snap prefers the inward direction: wherever the
/// preferred scan finds an edge, that edge is the result, regardless of
/// whatever the opposite direction holds — even a numerically closer edge.
pub proof fn lemma_snap_prefers_inward(
    img: LumaImage,
    axis: Axis,
    line: int,
    start: int,
    prefer_dir: int,
    e: u32,
)
    requires
        delta_scan(
            img,
            axis,
            line,
            lum_on(img, axis, line, start),
            start,
            prefer_dir,
            EDGE_THRESHOLD,
            SNAP_DISTANCE as int,
        ) == Some(e),
    ensures
        snap_point_spec(img, axis, line, start, prefer_dir) == e,
{
}

/// A scan that starts on the buffer's outer edge and heads outward reports
/// "not found" at once, in both modes: no pixel beyond the boundary is
/// ever examined.
pub proof fn lemma_scan_stops_at_boundary(
    img: LumaImage,
    axis: Axis,
    line: int,
    ref_lum: u8,
    threshold: u8,
    max_distance: int,
)
    ensures
        grad_scan(img, axis, line, 0, -1, threshold) is None,
        grad_scan(img, axis, line, axis_len(img, axis) - 1, 1, threshold) is None,
        delta_scan(img, axis, line, ref_lum, 0, -1, threshold, max_distance) is None,
        delta_scan(
            img,
            axis,
            line,
            ref_lum,
            axis_len(img, axis) - 1,
            1,
            threshold,
            max_distance,
        ) is None,
{
}

} // verus!
