//! The two ways in which a request can miss its bounds.

use vstd::prelude::*;
use crate::index::Idx;

verus! {

/// Why a view could not be made, or an element not be reached.
///
/// Each variant carries the offending request and the bound that it missed.
#[derive(Debug, PartialEq, Eq)]
pub enum SliceError<I> {
    /// The range `[start, end)` was asked of a container that holds only `len`
    /// elements, and `end` lies beyond `len`.
    RangeOutOfBounds { start: I, end: I, len: I },
    /// The position `index` was asked of a view that covers only `len`
    /// elements, and `index` is not below `len`.
    IndexOutOfBounds { index: I, len: I },
}

impl<I: Copy> Clone for SliceError<I> {
    fn clone(&self) -> (copy: Self)
        ensures
            copy == *self,
    {
        *self
    }
}

impl<I: Copy> Copy for SliceError<I> {

}

impl<I: Idx> SliceError<I> {
    /// This error reports that the range from position `start` to position
    /// `end` reaches beyond a container of `n` elements.
    pub open spec fn is_range_out_of_bounds(self, start: nat, end: nat, n: nat) -> bool {
        &&& self matches SliceError::RangeOutOfBounds { start: s, end: e, len: l }
        &&& s.pos() == start
        &&& e.pos() == end
        &&& l.pos() == n
    }

    /// This error reports that position `index` was asked of a view that
    /// covers `len` elements.
    pub open spec fn is_index_out_of_bounds(self, index: nat, len: nat) -> bool {
        &&& self matches SliceError::IndexOutOfBounds { index: i, len: l }
        &&& i.pos() == index
        &&& l.pos() == len
    }
}

} // verus!
