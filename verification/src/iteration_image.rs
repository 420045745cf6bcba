//! A validated grid of per-pixel iteration counts, and its deterministic
//! conversion to an interleaved RGB byte buffer.

use vstd::prelude::*;

use crate::error::{DimensionsDoNotMatch, InvalidBufferSize};

verus! {

/// The grayscale intensity an iteration count maps to:
/// `floor(count / max_iterations * 255)`, saturated into a byte.
///
/// A bound of zero cannot be produced by a meaningful render; it maps a zero
/// count to black and anything else to white, mirroring the saturating cast
/// the conversion would otherwise perform.
pub open spec fn gray_value(count: u32, max_iterations: u32) -> u8 {
    if max_iterations == 0 {
        if count == 0 {
            0u8
        } else {
            255u8
        }
    } else {
        let q = count * 255 / (max_iterations as int);
        if q > 255 {
            255u8
        } else {
            q as u8
        }
    }
}

/// Whether a buffer length and a width form a well-sized image: the buffer is
/// not empty and holds a whole number of rows of `width` pixels.
pub open spec fn size_ok(len: int, width: int) -> bool {
    &&& 0 < len
    &&& 0 < width
    &&& len % width == 0
}

/// One frame's iteration counts: a non-empty buffer holding whole rows of
/// `width` counts, together with the iteration bound that produced them.
pub struct IterationImage {
    buffer: Vec<u32>,
    width: usize,
    max_iterations: u32,
}

impl IterationImage {
    /// The per-pixel iteration counts, row-major, first row topmost.
    pub closed spec fn counts(&self) -> Seq<u32> {
        self.buffer@
    }

    pub closed spec fn spec_width(&self) -> usize {
        self.width
    }

    pub closed spec fn spec_max_iterations(&self) -> u32 {
        self.max_iterations
    }

    /// Every constructed image is well-sized.
    pub open spec fn wf(&self) -> bool {
        size_ok(self.counts().len() as int, self.spec_width() as int)
    }

    /// The derived height, `buffer length / width`.
    pub open spec fn spec_height(&self) -> int {
        self.counts().len() as int / self.spec_width() as int
    }

    /// Validates a buffer against a width; fails exactly when the buffer is
    /// empty, the width is zero, or the length is not a multiple of the width.
    pub fn from_buffer(buffer: Vec<u32>, width: usize, max_iterations: u32) -> (r: Result<
        Self,
        InvalidBufferSize,
    >)
        ensures
            r is Ok <==> size_ok(buffer@.len() as int, width as int),
            r matches Ok(img) ==> {
                &&& img.counts() == buffer@
                &&& img.spec_width() == width
                &&& img.spec_max_iterations() == max_iterations
                &&& img.wf()
            },
    {
        if buffer.len() == 0 || width == 0 || buffer.len() % width != 0 {
            return Err(InvalidBufferSize);
        }
        Ok(IterationImage { buffer, width, max_iterations })
    }

    pub fn width(&self) -> (w: usize)
        ensures
            w == self.spec_width(),
    {
        self.width
    }

    pub fn max_iterations(&self) -> (m: u32)
        ensures
            m == self.spec_max_iterations(),
    {
        self.max_iterations
    }

    /// The number of pixels in the image.
    pub fn len(&self) -> (n: usize)
        ensures
            n == self.counts().len(),
    {
        self.buffer.len()
    }

    /// The derived height.
    pub fn height(&self) -> (h: usize)
        requires
            self.wf(),
        ensures
            h == self.spec_height(),
    {
        self.buffer.len() / self.width
    }

    /// The iteration count at a linear pixel index.
    pub fn count_at(&self, index: usize) -> (c: u32)
        requires
            index < self.counts().len(),
        ensures
            c == self.counts()[index as int],
    {
        self.buffer[index]
    }

    /// Converts the image to an interleaved RGB byte buffer for a target
    /// surface of the given dimensions. Fails exactly when the target's
    /// dimensions differ from the image's own; on success each count is
    /// mapped to its grayscale intensity, replicated into all three channels.
    pub fn to_rgb_bytes(&self, width: usize, height: usize) -> (r: Result<
        Vec<u8>,
        DimensionsDoNotMatch,
    >)
        requires
            self.wf(),
        ensures
            r is Ok <==> width == self.spec_width() && height as int == self.spec_height(),
            r matches Ok(bytes) ==> {
                &&& bytes@.len() == 3 * self.counts().len()
                &&& forall|p: int|
                    0 <= p < self.counts().len() ==> {
                        let g = gray_value(#[trigger] self.counts()[p], self.spec_max_iterations());
                        bytes@[3 * p] == g && bytes@[3 * p + 1] == g && bytes@[3 * p + 2] == g
                    }
            },
    {
        let image_height = self.buffer.len() / self.width;
        if width != self.width || height != image_height {
            return Err(DimensionsDoNotMatch);
        }
        let mut bytes: Vec<u8> = Vec::new();
        let mut i: usize = 0;
        while i < self.buffer.len()
            invariant
                i <= self.counts().len(),
                bytes@.len() == 3 * i,
                forall|p: int|
                    0 <= p < i ==> {
                        let g = gray_value(#[trigger] self.counts()[p], self.spec_max_iterations());
                        bytes@[3 * p] == g && bytes@[3 * p + 1] == g && bytes@[3 * p + 2] == g
                    },
            decreases self.counts().len() - i,
        {
            let g = gray_byte(self.buffer[i], self.max_iterations);
            bytes.push(g);
            bytes.push(g);
            bytes.push(g);
            i = i + 1;
        }
        Ok(bytes)
    }
}

/// The executable grayscale mapping; agrees with [`gray_value`] on every
/// count and bound.
pub fn gray_byte(count: u32, max_iterations: u32) -> (b: u8)
    ensures
        b == gray_value(count, max_iterations),
{
    if max_iterations == 0 {
        if count == 0 {
            0
        } else {
            255
        }
    } else {
        let q: u64 = (count as u64) * 255 / (max_iterations as u64);
        if q > 255 {
            255
        } else {
            q as u8
        }
    }
}

/// The grayscale mapping sends a zero count to black, and, for a positive
/// bound, a count equal to the bound to exactly full white — never past it.
pub proof fn lemma_gray_endpoints(max_iterations: u32)
    ensures
        gray_value(0, max_iterations) == 0,
        max_iterations > 0 ==> gray_value(max_iterations, max_iterations) == 255,
{
    if max_iterations > 0 {
        let m = max_iterations as int;
        assert(0int * 255 / m == 0) by (nonlinear_arith)
            requires
                m > 0,
        ;
        assert(m * 255 / m == 255) by (nonlinear_arith)
            requires
                m > 0,
        ;
    }
}

} // verus!
