//! A read-only single-channel raster: the image source every scan consumes.

use vstd::prelude::*;

verus! {

/// An immutable raster of per-pixel luminance values, stored row-major.
/// Both dimensions are positive and the backing buffer holds exactly one
/// sample for every coordinate pair.
pub struct LumaImage {
    width: u32,
    height: u32,
    data: Vec<u8>,
}

impl LumaImage {
    /// Well-formedness: positive dimensions and a fully populated buffer.
    pub closed spec fn wf(self) -> bool {
        &&& self.width > 0
        &&& self.height > 0
        &&& self.data@.len() == self.width * self.height
    }

    pub closed spec fn spec_width(self) -> u32 {
        self.width
    }

    pub closed spec fn spec_height(self) -> u32 {
        self.height
    }

    /// The luminance sample at a coordinate pair, as the mathematical model
    /// of the raster.
    pub closed spec fn lum(self, x: int, y: int) -> u8 {
        self.data@[y * self.width + x]
    }

    /// Builds an image from its dimensions and a row-major luminance buffer.
    pub fn new(width: u32, height: u32, data: Vec<u8>) -> (img: LumaImage)
        requires
            width > 0,
            height > 0,
            data@.len() == width * height,
        ensures
            img.wf(),
            img.spec_width() == width,
            img.spec_height() == height,
            forall|x: int, y: int|
                0 <= x < width && 0 <= y < height ==> img.lum(x, y) == data@[y * width + x],
    {
        LumaImage { width, height, data }
    }

    pub fn width(&self) -> (w: u32)
        ensures
            w == self.spec_width(),
    {
        self.width
    }

    pub fn height(&self) -> (h: u32)
        ensures
            h == self.spec_height(),
    {
        self.height
    }

    /// The luminance query of the image source: defined for every in-bounds
    /// coordinate pair, and never issued out of bounds.
    pub fn get_luminance(&self, x: u32, y: u32) -> (l: u8)
        requires
            self.wf(),
            x < self.spec_width(),
            y < self.spec_height(),
        ensures
            l == self.lum(x as int, y as int),
    {
        let n: usize = self.data.len();
        proof {
            assert(y * self.width + x < self.width * self.height) by (nonlinear_arith)
                requires
                    x < self.width,
                    y < self.height,
            ;
            assert(y * self.width + x < n);
        }
        let idx: usize = (y as usize) * (self.width as usize) + (x as usize);
        self.data[idx]
    }
}

} // verus!
