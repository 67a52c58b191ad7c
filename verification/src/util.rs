//! Bounds checks shared by the view constructors.

use vstd::prelude::*;
use std::ops::Range;
use crate::error::SliceError;
use crate::index::Idx;

verus! {

/// Marks a condition as rarely true. The value passes through unchanged.
#[inline(always)]
pub fn unlikely(x: bool) -> (r: bool)
    ensures
        r == x,
{
    x
}

/// Checks that the range `index` ends within a container of `len` elements.
///
/// The range passes exactly when its end is at most `len`; otherwise the
/// error names the range and the length that it exceeds. Where the range
/// starts plays no part in the answer.
#[inline]
pub fn assert_in_bounds<I: Idx>(index: &Range<I>, len: I) -> (r: Result<(), SliceError<I>>)
    ensures
        match r {
            Ok(_) => index.end.pos() <= len.pos(),
            Err(e) => index.end.pos() > len.pos() && e == (SliceError::RangeOutOfBounds {
                start: index.start,
                end: index.end,
                len: len,
            }),
        },
{
    if unlikely(len.less_than(index.end)) {
        Err(SliceError::RangeOutOfBounds { start: index.start, end: index.end, len: len })
    } else {
        Ok(())
    }
}

} // verus!
