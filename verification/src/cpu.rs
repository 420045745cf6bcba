//! State of the parallel scalar renderer: its dimensions and the persistent
//! iteration-count buffer, reallocated only on resize and reused across
//! frames.
//!
//! The per-pixel escape-time arithmetic itself is floating-point work carried
//! out by the caller; this module guarantees the buffer is always sized to
//! the current dimensions and that producing an [`IterationImage`] from it
//! can never fail.

use vstd::prelude::*;

use vstd::arithmetic::div_mod::{lemma_div_multiples_vanish, lemma_mod_multiples_basic};
use vstd::arithmetic::mul::lemma_mul_strictly_positive;
use vstd::pervasive::unreached;

use crate::dimensions::Dimensions;
use crate::error::{IntegerOverflow, InvalidBufferSize};
use crate::iteration_image::IterationImage;

verus! {

/// A buffer of `n` zeroed iteration counts.
fn zero_buffer(n: usize) -> (v: Vec<u32>)
    ensures
        v@.len() == n,
        forall|i: int| 0 <= i < n ==> v@[i] == 0u32,
{
    let mut v: Vec<u32> = Vec::new();
    let mut i: usize = 0;
    while i < n
        invariant
            i <= n,
            v@.len() == i,
            forall|j: int| 0 <= j < i ==> v@[j] == 0u32,
        decreases n - i,
    {
        v.push(0);
        i = i + 1;
    }
    v
}

/// The CPU backend's persistent state: validated dimensions and one
/// iteration-count slot per pixel.
pub struct ScalarCpuRenderer {
    width: usize,
    height: usize,
    iteration_image_buffer: Vec<u32>,
}

impl ScalarCpuRenderer {
    pub closed spec fn spec_width(&self) -> usize {
        self.width
    }

    pub closed spec fn spec_height(&self) -> usize {
        self.height
    }

    /// The current contents of the persistent buffer.
    pub closed spec fn counts(&self) -> Seq<u32> {
        self.iteration_image_buffer@
    }

    /// The dimensions satisfy the size invariant and the buffer holds exactly
    /// one slot per pixel.
    pub open spec fn wf(&self) -> bool {
        &&& Dimensions::valid(self.spec_width() as int, self.spec_height() as int)
        &&& self.counts().len() == self.spec_width() * self.spec_height()
    }

    /// Allocates a renderer for the given dimensions; fails exactly when a
    /// side is zero or `width * height` overflows `usize`. The fresh buffer
    /// holds `width * height` zeroed counts.
    pub fn new(width: usize, height: usize) -> (r: Result<Self, IntegerOverflow>)
        ensures
            r is Ok <==> Dimensions::valid(width as int, height as int),
            r matches Ok(rr) ==> {
                &&& rr.wf()
                &&& rr.spec_width() == width
                &&& rr.spec_height() == height
                &&& rr.counts().len() == width * height
                &&& forall|i: int| 0 <= i < rr.counts().len() ==> rr.counts()[i] == 0u32
            },
    {
        let dimensions = match Dimensions::new(width, height) {
            Ok(d) => d,
            Err(e) => {
                return Err(e);
            },
        };
        Ok(
            ScalarCpuRenderer {
                width,
                height,
                iteration_image_buffer: zero_buffer(dimensions.pixel_count()),
            },
        )
    }

    pub fn width(&self) -> (w: usize)
        ensures
            w == self.spec_width(),
    {
        self.width
    }

    pub fn height(&self) -> (h: usize)
        ensures
            h == self.spec_height(),
    {
        self.height
    }

    /// The number of pixels the buffer is sized for.
    pub fn pixel_count(&self) -> (n: usize)
        requires
            self.wf(),
        ensures
            n == self.spec_width() * self.spec_height(),
    {
        self.iteration_image_buffer.len()
    }

    /// Replaces the dimensions and reallocates the buffer; fails exactly when
    /// the new pixel count is not representable, leaving the renderer
    /// unchanged. On success the buffer holds `width * height` zeroed counts.
    pub fn resize(&mut self, width: usize, height: usize) -> (r: Result<(), IntegerOverflow>)
        ensures
            r is Ok <==> Dimensions::valid(width as int, height as int),
            r is Ok ==> {
                &&& final(self).wf()
                &&& final(self).spec_width() == width
                &&& final(self).spec_height() == height
                &&& forall|i: int|
                    0 <= i < final(self).counts().len() ==> final(self).counts()[i] == 0u32
            },
            r is Err ==> *final(self) == *old(self),
    {
        let dimensions = match Dimensions::new(width, height) {
            Ok(d) => d,
            Err(e) => {
                return Err(e);
            },
        };
        self.width = width;
        self.height = height;
        self.iteration_image_buffer = zero_buffer(dimensions.pixel_count());
        Ok(())
    }

    /// Stores one pixel's iteration count at its linear index.
    pub fn set_count(&mut self, index: usize, count: u32)
        requires
            old(self).wf(),
            index < old(self).counts().len(),
        ensures
            final(self).wf(),
            final(self).spec_width() == old(self).spec_width(),
            final(self).spec_height() == old(self).spec_height(),
            final(self).counts() == old(self).counts().update(index as int, count),
    {
        let slot = &mut self.iteration_image_buffer[index];
        *slot = count;
    }

    /// Replaces the whole buffer with one frame's counts; fails exactly when
    /// the given buffer is not sized to the current dimensions, leaving the
    /// renderer unchanged.
    pub fn store_counts(&mut self, counts: Vec<u32>) -> (r: Result<(), InvalidBufferSize>)
        requires
            old(self).wf(),
        ensures
            r is Ok <==> counts@.len() == old(self).counts().len(),
            final(self).spec_width() == old(self).spec_width(),
            final(self).spec_height() == old(self).spec_height(),
            final(self).wf(),
            r is Ok ==> final(self).counts() == counts@,
            r is Err ==> final(self).counts() == old(self).counts(),
    {
        if counts.len() != self.iteration_image_buffer.len() {
            return Err(InvalidBufferSize);
        }
        self.iteration_image_buffer = counts;
        Ok(())
    }

    /// Snapshots the buffer as an [`IterationImage`] carrying the given
    /// iteration bound. The buffer is always well-formed for the current
    /// dimensions, so the image's own validation provably never fails.
    pub fn image(&self, max_iterations: u32) -> (img: IterationImage)
        requires
            self.wf(),
        ensures
            img.wf(),
            img.spec_width() == self.spec_width(),
            img.spec_height() == self.spec_height(),
            img.spec_max_iterations() == max_iterations,
            img.counts() == self.counts(),
    {
        let buffer = copy_counts(&self.iteration_image_buffer);
        proof {
            lemma_mul_strictly_positive(self.spec_width() as int, self.spec_height() as int);
            lemma_mod_multiples_basic(self.spec_height() as int, self.spec_width() as int);
        }
        match IterationImage::from_buffer(buffer, self.width, max_iterations) {
            Ok(img) => {
                proof {
                    lemma_div_multiples_vanish(self.spec_height() as int, self.spec_width() as int);
                }
                img
            },
            Err(_) => unreached(),
        }
    }
}

/// Stores to distinct pixels commute: filling the buffer one count at a time
/// reaches the same contents whatever order the pixels are visited in, which
/// is the order-independence the per-pixel fan-out relies on.
pub proof fn lemma_set_count_order_independent(s: Seq<u32>, i: int, ci: u32, j: int, cj: u32)
    requires
        0 <= i < s.len(),
        0 <= j < s.len(),
        i != j,
    ensures
        s.update(i, ci).update(j, cj) == s.update(j, cj).update(i, ci),
{
    assert(s.update(i, ci).update(j, cj) =~= s.update(j, cj).update(i, ci));
}

/// A fresh buffer with the same contents.
fn copy_counts(counts: &Vec<u32>) -> (v: Vec<u32>)
    ensures
        v@ == counts@,
{
    let mut v: Vec<u32> = Vec::new();
    let mut i: usize = 0;
    while i < counts.len()
        invariant
            i <= counts@.len(),
            v@ == counts@.subrange(0, i as int),
        decreases counts@.len() - i,
    {
        v.push(counts[i]);
        proof {
            assert(v@ =~= counts@.subrange(0, i + 1 as int));
        }
        i = i + 1;
    }
    proof {
        assert(v@ =~= counts@);
    }
    v
}

} // verus!
