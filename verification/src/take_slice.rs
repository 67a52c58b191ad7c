//! The slicing capability: what a container supplies, and what it gains.

use vstd::prelude::*;
use std::collections::VecDeque;
use std::ops::Range;
use std::ops::RangeFrom;
use std::ops::RangeTo;
use crate::error::SliceError;
use crate::index::Idx;
use crate::slice::Slice;
use crate::slice::SliceMut;
use crate::util::assert_in_bounds;

verus! {

/// `std::ops::RangeTo`, the range `..end`, with its one public field.
#[verifier::external_type_specification]
#[verifier::reject_recursive_types(I)]
pub struct ExRangeTo<I>(RangeTo<I>);

/// `std::ops::RangeFrom`, the range `start..`, with its one public field.
#[verifier::external_type_specification]
#[verifier::reject_recursive_types(I)]
pub struct ExRangeFrom<I>(RangeFrom<I>);

/// A container that can be sliced the way the built-in `[T]` can, though its
/// elements need not lie side by side in memory.
///
/// The container is modelled by the sequence `elems()` of its elements, each
/// reached by a position of type `I`. An implementation supplies `len`, `get`
/// and `get_mut`; the range operations come with the trait.
pub trait TakeSlice<T, I: Idx>: Sized {
    /// The elements of the container, by position.
    spec fn elems(&self) -> Seq<T>;

    /// The number of elements is itself a position of the index type.
    proof fn lemma_len_fits(&self)
        ensures
            self.elems().len() <= I::max_pos(),
    ;

    /// Returns the number of elements in the container.
    fn len(&self) -> (n: I)
        ensures
            n.pos() == self.elems().len(),
    ;

    /// Returns the element at `index`.
    fn get(&self, index: I) -> (element: &T)
        requires
            index.pos() < self.elems().len(),
        ensures
            *element == self.elems()[index.pos() as int],
    ;

    /// Returns the element at `index`, for writing. A write through the
    /// reference changes that element and no other.
    fn get_mut(&mut self, index: I) -> (element: &mut T)
        requires
            index.pos() < old(self).elems().len(),
        ensures
            *element == old(self).elems()[index.pos() as int],
            final(self).elems() == old(self).elems().update(index.pos() as int, *final(element)),
    ;

    /// The view of the elements from `index.start` up to, not including,
    /// `index.end`: what `&container[start..end]` is for a built-in slice.
    ///
    /// A range that ends beyond the container gives the error instead. A
    /// range that ends within it must not start beyond its own end.
    fn index_range(&self, index: Range<I>) -> (r: Result<Slice<'_, Self, I, T>, SliceError<I>>)
        requires
            index.end.pos() <= self.elems().len() ==> index.start.pos() <= index.end.pos(),
        ensures
            Slice::is_range_of(
                r,
                self,
                self.elems().len(),
                index.start.pos(),
                index.end.pos(),
            ),
    {
        match assert_in_bounds(&index, self.len()) {
            Ok(_) => Ok(Slice::from_parts(self, index.start, index.end.minus(index.start))),
            Err(e) => Err(e),
        }
    }

    /// The view for writing of the elements from `index.start` up to, not
    /// including, `index.end`: what `&mut container[start..end]` is for a
    /// built-in slice.
    ///
    /// A range that ends beyond the container gives the error instead, and
    /// the container is left as it was. A range that ends within it must not
    /// start beyond its own end.
    fn index_range_mut(&mut self, index: Range<I>) -> (r: Result<
        SliceMut<'_, Self, I, T>,
        SliceError<I>,
    >)
        requires
            index.end.pos() <= old(self).elems().len() ==> index.start.pos() <= index.end.pos(),
        ensures
            SliceMut::is_range_of(
                r,
                old(self),
                old(self).elems().len(),
                index.start.pos(),
                index.end.pos(),
            ),
            match r {
                Ok(s) => *final(s.borrowed()) == *final(self),
                Err(_) => *final(self) == *old(self),
            },
    {
        match assert_in_bounds(&index, self.len()) {
            Ok(_) => Ok(SliceMut::from_parts(self, index.start, index.end.minus(index.start))),
            Err(e) => Err(e),
        }
    }

    /// The view of the elements before `index.end`: what `&container[..end]`
    /// is for a built-in slice, and what `index_range` gives for the range
    /// from the first position to `index.end`.
    fn index_range_to(&self, index: RangeTo<I>) -> (r: Result<Slice<'_, Self, I, T>, SliceError<I>>)
        ensures
            Slice::is_range_of(r, self, self.elems().len(), 0, index.end.pos()),
    {
        self.index_range(I::zero()..index.end)
    }

    /// The view for writing of the elements before `index.end`: what
    /// `&mut container[..end]` is for a built-in slice, and what
    /// `index_range_mut` gives for the range from the first position to
    /// `index.end`.
    fn index_range_to_mut(&mut self, index: RangeTo<I>) -> (r: Result<
        SliceMut<'_, Self, I, T>,
        SliceError<I>,
    >)
        ensures
            SliceMut::is_range_of(r, old(self), old(self).elems().len(), 0, index.end.pos()),
            match r {
                Ok(s) => *final(s.borrowed()) == *final(self),
                Err(_) => *final(self) == *old(self),
            },
    {
        self.index_range_mut(I::zero()..index.end)
    }

    /// The view of the elements from `index.start` on: what
    /// `&container[start..]` is for a built-in slice, and what `index_range`
    /// gives for the range from `index.start` to the container's length.
    ///
    /// The range must not start beyond the container's length.
    fn index_range_from(&self, index: RangeFrom<I>) -> (r: Result<
        Slice<'_, Self, I, T>,
        SliceError<I>,
    >)
        requires
            index.start.pos() <= self.elems().len(),
        ensures
            Slice::is_range_of(
                r,
                self,
                self.elems().len(),
                index.start.pos(),
                self.elems().len(),
            ),
    {
        let len = self.len();
        self.index_range(index.start..len)
    }

    /// The view for writing of the elements from `index.start` on: what
    /// `&mut container[start..]` is for a built-in slice, and what
    /// `index_range_mut` gives for the range from `index.start` to the
    /// container's length.
    ///
    /// The range must not start beyond the container's length.
    fn index_range_from_mut(&mut self, index: RangeFrom<I>) -> (r: Result<
        SliceMut<'_, Self, I, T>,
        SliceError<I>,
    >)
        requires
            index.start.pos() <= old(self).elems().len(),
        ensures
            SliceMut::is_range_of(
                r,
                old(self),
                old(self).elems().len(),
                index.start.pos(),
                old(self).elems().len(),
            ),
            match r {
                Ok(s) => *final(s.borrowed()) == *final(self),
                Err(_) => *final(self) == *old(self),
            },
    {
        let len = self.len();
        self.index_range_mut(index.start..len)
    }
}

impl<T> TakeSlice<T, usize> for VecDeque<T> {
    open spec fn elems(&self) -> Seq<T> {
        self@
    }

    proof fn lemma_len_fits(&self) {
        vstd::std_specs::vecdeque::axiom_spec_len(self);
    }

    fn len(&self) -> (n: usize) {
        VecDeque::len(self)
    }

    fn get(&self, index: usize) -> (element: &T) {
        &self[index]
    }

    fn get_mut(&mut self, index: usize) -> (element: &mut T) {
        deque_index_mut(self, index)
    }
}

/// `VecDeque`'s `IndexMut::index_mut`, which is `&mut deque[index]`: for an
/// index below the length it returns the element at that position, and a
/// write through the reference changes that element and no other.
#[verifier::external_body]
fn deque_index_mut<T>(deque: &mut VecDeque<T>, index: usize) -> (element: &mut T)
    requires
        index < old(deque)@.len(),
    ensures
        *element == old(deque)@[index as int],
        final(deque)@ == old(deque)@.update(index as int, *final(element)),
{
    &mut deque[index]
}

} // verus!
