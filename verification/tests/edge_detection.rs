use edge_scanner::edge_detection::snap_edge;
use edge_scanner::edge_detection::snap_to_nearest_edge;
use edge_scanner::edge_detection::snap_to_nearest_edge_x;
use edge_scanner::edge_detection::snap_to_nearest_edge_y;
use edge_scanner::edge_detection::find_edges;
use edge_scanner::image::LumaImage;
use edge_scanner::scan::Axis;
use edge_scanner::scan::scan_horizontal;
use edge_scanner::scan::scan_horizontal_limited;
use edge_scanner::scan::scan_vertical;
use edge_scanner::scan::scan_vertical_limited;

fn uniform(width: u32, height: u32, v: u8) -> LumaImage {
    LumaImage::new(width, height, vec![v; (width * height) as usize])
}

/// A raster whose luminance at (x, y) is f(x, y).
fn from_fn(width: u32, height: u32, f: impl Fn(u32, u32) -> u8) -> LumaImage {
    let mut data = Vec::new();
    for y in 0..height {
        for x in 0..width {
            data.push(f(x, y));
        }
    }
    LumaImage::new(width, height, data)
}

#[test]
fn uniform_image_finds_buffer_boundary() {
    let img = uniform(10, 8, 100);
    let edges = find_edges(&img, 4, 3);
    assert_eq!(edges.left, 0);
    assert_eq!(edges.right, 9);
    assert_eq!(edges.up, 0);
    assert_eq!(edges.down, 7);
}

#[test]
fn step_image_rightward_scan_stops_before_step() {
    // columns 0..6 dark, columns 6..10 bright: the step is at column 6
    let img = from_fn(10, 4, |x, _| if x < 6 { 20 } else { 220 });
    for x in 0..6 {
        assert_eq!(scan_horizontal(&img, x, 2, 1), Some(5));
    }
    let edges = find_edges(&img, 2, 1);
    assert_eq!(edges.right, 5);
    assert_eq!(edges.left, 0);
}

#[test]
fn find_edges_locates_box_around_cursor() {
    // bright 3x3 box over columns and rows 3..=5 of a dark 9x9 field
    let img = from_fn(9, 9, |x, y| {
        if (3..=5).contains(&x) && (3..=5).contains(&y) { 200 } else { 10 }
    });
    let edges = find_edges(&img, 4, 4);
    assert_eq!(edges.left, 3);
    assert_eq!(edges.right, 5);
    assert_eq!(edges.up, 3);
    assert_eq!(edges.down, 5);
}

#[test]
fn delta_exactly_at_threshold_is_no_edge() {
    // adjacent delta of exactly 5 never qualifies; 6 does
    let at_threshold = from_fn(4, 1, |x, _| if x < 2 { 100 } else { 105 });
    assert_eq!(scan_horizontal(&at_threshold, 0, 0, 1), None);
    let above_threshold = from_fn(4, 1, |x, _| if x < 2 { 100 } else { 106 });
    assert_eq!(scan_horizontal(&above_threshold, 0, 0, 1), Some(1));
}

#[test]
fn gradient_mode_tolerates_smooth_ramp_bounded_mode_does_not() {
    // each adjacent delta is 3 (under the threshold), but the cumulative
    // deviation from the start exceeds it two pixels in
    let img = from_fn(8, 1, |x, _| (100 + 3 * x) as u8);
    assert_eq!(scan_horizontal(&img, 0, 0, 1), None);
    assert_eq!(scan_horizontal_limited(&img, 0, 0, 1, 200), Some(2));
}

#[test]
fn bounded_scan_returns_the_edge_pixel_itself() {
    let img = from_fn(10, 1, |x, _| if x < 6 { 20 } else { 220 });
    // unbounded gradient mode reports the interior neighbour, bounded mode
    // the boundary pixel
    assert_eq!(scan_horizontal(&img, 2, 0, 1), Some(5));
    assert_eq!(scan_horizontal_limited(&img, 2, 0, 1, 200), Some(6));
}

#[test]
fn bounded_scan_respects_max_distance() {
    // edge pixel sits 4 steps right of x = 2
    let img = from_fn(10, 1, |x, _| if x < 6 { 20 } else { 220 });
    assert_eq!(scan_horizontal_limited(&img, 2, 0, 1, 3), None);
    assert_eq!(scan_horizontal_limited(&img, 2, 0, 1, 4), Some(6));
    let tall = from_fn(1, 10, |_, y| if y < 6 { 20 } else { 220 });
    assert_eq!(scan_vertical_limited(&tall, 0, 2, 1, 3), None);
    assert_eq!(scan_vertical_limited(&tall, 0, 2, 1, 4), Some(6));
}

#[test]
fn boundary_scans_report_not_found_immediately() {
    let img = uniform(6, 5, 77);
    assert_eq!(scan_horizontal(&img, 0, 2, -1), None);
    assert_eq!(scan_horizontal(&img, 5, 2, 1), None);
    assert_eq!(scan_vertical(&img, 3, 0, -1), None);
    assert_eq!(scan_vertical(&img, 3, 4, 1), None);
    assert_eq!(scan_horizontal_limited(&img, 0, 2, -1, 200), None);
    assert_eq!(scan_horizontal_limited(&img, 5, 2, 1, 200), None);
    assert_eq!(scan_vertical_limited(&img, 3, 0, -1, 200), None);
    assert_eq!(scan_vertical_limited(&img, 3, 4, 1, 200), None);
}

#[test]
fn snap_prefers_inward_even_when_outward_edge_is_closer() {
    // from x = 3: leftward edge pixel at x = 0 (3 steps away), rightward
    // edge pixel at x = 5 (2 steps away)
    let img = from_fn(7, 1, |x, _| match x {
        0 => 0,
        5 | 6 => 200,
        _ => 100,
    });
    assert_eq!(snap_to_nearest_edge_x(&img, 3, 0, -1), 0);
    assert_eq!(snap_to_nearest_edge_x(&img, 3, 0, 1), 5);
}

#[test]
fn snap_falls_back_to_opposite_direction() {
    // no edge right of x = 2, but one leftward at x = 0
    let img = from_fn(8, 1, |x, _| if x == 0 { 0 } else { 100 });
    assert_eq!(snap_to_nearest_edge_x(&img, 2, 0, 1), 0);
}

#[test]
fn snap_keeps_coordinate_when_no_edge_found() {
    let img = uniform(12, 12, 50);
    assert_eq!(snap_to_nearest_edge_x(&img, 7, 3, 1), 7);
    assert_eq!(snap_to_nearest_edge_x(&img, 7, 3, -1), 7);
    assert_eq!(snap_to_nearest_edge_y(&img, 7, 3, 1), 3);
    assert_eq!(snap_to_nearest_edge_y(&img, 7, 3, -1), 3);
}

#[test]
fn snap_vertical_prefers_inward() {
    let img = from_fn(1, 7, |_, y| match y {
        0 => 0,
        5 | 6 => 200,
        _ => 100,
    });
    assert_eq!(snap_to_nearest_edge_y(&img, 0, 3, -1), 0);
    assert_eq!(snap_to_nearest_edge_y(&img, 0, 3, 1), 5);
}

#[test]
fn snap_to_nearest_edge_dispatches_on_axis() {
    let img = from_fn(7, 7, |x, y| if x >= 5 || y >= 5 { 200 } else { 100 });
    assert_eq!(
        snap_to_nearest_edge(&img, 3, 2, Axis::Horizontal, 1),
        snap_to_nearest_edge_x(&img, 3, 2, 1)
    );
    assert_eq!(
        snap_to_nearest_edge(&img, 3, 2, Axis::Vertical, 1),
        snap_to_nearest_edge_y(&img, 3, 2, 1)
    );
}

#[test]
fn snap_edge_outward_positive_takes_minimum_found() {
    // per-row edges right of x = 0: row 0 at x = 4, row 1 at x = 2, row 2
    // finds none
    let img = from_fn(8, 3, |x, y| match y {
        0 => if x < 4 { 100 } else { 200 },
        1 => if x < 2 { 100 } else { 200 },
        _ => 100,
    });
    assert_eq!(snap_edge(&img, 0, 0, 2, Axis::Horizontal, 1), 2);
}

#[test]
fn snap_edge_outward_negative_takes_maximum_found() {
    // per-row edges left of x = 7: row 0 at x = 4, row 1 at x = 2
    let img = from_fn(8, 2, |x, y| match y {
        0 => if x > 4 { 100 } else { 200 },
        _ => if x > 2 { 100 } else { 200 },
    });
    assert_eq!(snap_edge(&img, 7, 0, 1, Axis::Horizontal, -1), 4);
}

#[test]
fn snap_edge_keeps_coordinate_when_no_line_finds_an_edge() {
    let img = uniform(10, 10, 130);
    assert_eq!(snap_edge(&img, 4, 1, 8, Axis::Horizontal, 1), 4);
    assert_eq!(snap_edge(&img, 4, 1, 8, Axis::Vertical, -1), 4);
}

#[test]
fn snap_edge_sweeps_columns_for_vertical_axis() {
    // per-column edges below y = 0: column 0 at y = 3, column 1 at y = 1
    let img = from_fn(2, 6, |x, y| match x {
        0 => if y < 3 { 100 } else { 200 },
        _ => if y < 1 { 100 } else { 200 },
    });
    assert_eq!(snap_edge(&img, 0, 0, 1, Axis::Vertical, 1), 1);
}

#[test]
fn repeated_calls_yield_identical_results() {
    let img = from_fn(9, 9, |x, y| {
        if (3..=5).contains(&x) && (2..=6).contains(&y) { 230 } else { 40 }
    });
    let first = find_edges(&img, 4, 4);
    let second = find_edges(&img, 4, 4);
    assert_eq!(first, second);
    assert_eq!(
        snap_to_nearest_edge_x(&img, 1, 4, 1),
        snap_to_nearest_edge_x(&img, 1, 4, 1)
    );
    assert_eq!(
        snap_edge(&img, 1, 2, 6, Axis::Horizontal, 1),
        snap_edge(&img, 1, 2, 6, Axis::Horizontal, 1)
    );
}

#[test]
fn image_reports_dimensions_and_samples() {
    let img = LumaImage::new(3, 2, vec![1, 2, 3, 4, 5, 6]);
    assert_eq!(img.width(), 3);
    assert_eq!(img.height(), 2);
    assert_eq!(img.get_luminance(0, 0), 1);
    assert_eq!(img.get_luminance(2, 0), 3);
    assert_eq!(img.get_luminance(0, 1), 4);
    assert_eq!(img.get_luminance(2, 1), 6);
}
