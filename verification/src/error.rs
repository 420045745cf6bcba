//! Error values for construction and validation failures.

use vstd::prelude::*;

verus! {

/// A requested buffer size `width * height` does not fit in `usize`, or a
/// dimension is zero.
#[derive(Clone, Copy, Debug, PartialEq, Eq, Structural)]
pub struct IntegerOverflow;

/// An iteration-count buffer is empty or its length is not a multiple of the
/// stated width.
#[derive(Clone, Copy, Debug, PartialEq, Eq, Structural)]
pub struct InvalidBufferSize;

/// A display target's dimensions disagree with an image's own dimensions.
#[derive(Clone, Copy, Debug, PartialEq, Eq, Structural)]
pub struct DimensionsDoNotMatch;

} // verus!
