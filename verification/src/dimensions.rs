//! Pixel dimensions of a viewport, with the size invariant: both sides are
//! positive and `width * height` fits in `usize`.

use vstd::prelude::*;

use crate::error::IntegerOverflow;

verus! {

/// A validated pair of pixel dimensions.
///
/// Invariant: `width > 0`, `height > 0`, and `width * height <= usize::MAX`,
/// so a buffer of one slot per pixel is always addressable.
#[derive(Clone, Copy, Debug, PartialEq, Eq, Structural)]
pub struct Dimensions {
    width: usize,
    height: usize,
}

impl Dimensions {
    /// Whether a width/height pair satisfies the size invariant.
    pub open spec fn valid(width: int, height: int) -> bool {
        &&& 0 < width
        &&& 0 < height
        &&& width * height <= usize::MAX
    }

    pub closed spec fn spec_width(&self) -> usize {
        self.width
    }

    pub closed spec fn spec_height(&self) -> usize {
        self.height
    }

    /// Every constructed value satisfies the size invariant.
    pub open spec fn wf(&self) -> bool {
        Self::valid(self.spec_width() as int, self.spec_height() as int)
    }

    /// The number of pixels, `width * height`.
    pub open spec fn spec_pixel_count(&self) -> int {
        self.spec_width() * self.spec_height()
    }

    /// Validates a width/height pair; fails exactly when a side is zero or
    /// the pixel count would overflow `usize`.
    pub fn new(width: usize, height: usize) -> (r: Result<Self, IntegerOverflow>)
        ensures
            r is Ok <==> Self::valid(width as int, height as int),
            r matches Ok(d) ==> d.wf() && d.spec_width() == width && d.spec_height() == height,
    {
        if width == 0 || height == 0 {
            return Err(IntegerOverflow);
        }
        match width.checked_mul(height) {
            Some(_) => Ok(Dimensions { width, height }),
            None => Err(IntegerOverflow),
        }
    }

    pub fn width(&self) -> (w: usize)
        ensures
            w == self.spec_width(),
    {
        self.width
    }

    pub fn height(&self) -> (h: usize)
        ensures
            h == self.spec_height(),
    {
        self.height
    }

    /// The number of pixels; never overflows thanks to the invariant.
    pub fn pixel_count(&self) -> (n: usize)
        requires
            self.wf(),
        ensures
            n == self.spec_pixel_count(),
    {
        self.width * self.height
    }
}

} // verus!
