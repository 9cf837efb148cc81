//! Edge-detection and edge-snapping over a luminance raster.
//!
//! The scanner walks pixel-by-pixel away from a start position along one
//! axis and reports the first luminance discontinuity that exceeds a
//! threshold. Two comparison modes exist: an unbounded gradient mode that
//! compares each pixel to its predecessor (used to find the extent of the
//! object under a cursor) and a bounded delta-from-start mode that compares
//! each pixel to the scan's origin (used to snap selection edges to nearby
//! content).

pub mod edge_detection;
pub mod image;
pub mod laws;
pub mod scan;
