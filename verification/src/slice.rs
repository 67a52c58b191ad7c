//! Views: bounds-checked windows into a container.

use vstd::prelude::*;
use std::marker::PhantomData;
use std::ops::Range;
use crate::error::SliceError;
use crate::index::Idx;
use crate::iter::Iter;
use crate::iter::IterMut;
use crate::take_slice::TakeSlice;
use crate::util::assert_in_bounds;
use crate::util::unlikely;

verus! {

/// A read-only window into a container: `len` elements from `start` on.
///
/// Nothing is copied: the view borrows the container for as long as it
/// lives. A view that one of the constructors has made lies within its
/// container (`wf`).
#[derive(Debug)]
pub struct Slice<'a, K, I, T> {
    list: &'a K,
    start: I,
    len: I,
    ty: PhantomData<T>,
}

impl<'a, K, I: Copy, T> Clone for Slice<'a, K, I, T> {
    /// A view is copied as it stands: the copy looks into the same container.
    fn clone(&self) -> (copy: Self)
        ensures
            copy == *self,
    {
        *self
    }
}

impl<'a, K, I: Copy, T> Copy for Slice<'a, K, I, T> {

}

impl<'a, K: TakeSlice<T, I>, I: Idx, T> View for Slice<'a, K, I, T> {
    type V = Seq<T>;

    /// The elements that the view covers, in order.
    open spec fn view(&self) -> Seq<T> {
        self.owner().elems().subrange(
            self.start().pos() as int,
            (self.start().pos() + self.len().pos()) as int,
        )
    }
}

impl<'a, K, I: Idx, T> Slice<'a, K, I, T> {
    /// The container that the view looks into.
    pub closed spec fn owner(&self) -> &'a K {
        self.list
    }

    /// The position in the container at which the view begins.
    pub closed spec fn start(&self) -> I {
        self.start
    }

    /// The number of elements that the view covers.
    pub closed spec fn len(&self) -> I {
        self.len
    }

    /// The view is the window of `list` from position `start` to position
    /// `end`.
    pub open spec fn covers(&self, list: &K, start: nat, end: nat) -> bool {
        &&& self.owner() == list
        &&& self.start().pos() == start
        &&& self.len().pos() == end - start
    }

    /// `r` is what slicing the positions from `start` to `end` out of `list`,
    /// a container of `n` elements, gives: the view that covers exactly
    /// those positions where `end` is at most `n`, and otherwise the error
    /// that names the range and `n`.
    pub open spec fn is_range_of(
        r: Result<Self, SliceError<I>>,
        list: &K,
        n: nat,
        start: nat,
        end: nat,
    ) -> bool {
        match r {
            Ok(s) => end <= n && s.covers(list, start, end),
            Err(e) => end > n && e.is_range_out_of_bounds(start, end, n),
        }
    }

    /// A view is no more than its container, its start and its length.
    pub proof fn lemma_same_parts(self, other: Self)
        requires
            self.owner() == other.owner(),
            self.start() == other.start(),
            self.len() == other.len(),
        ensures
            self == other,
    {
    }

    /// Puts a view together from its parts. Whether the window lies within
    /// the container is for the caller to have checked.
    pub(crate) fn from_parts(list: &'a K, start: I, len: I) -> (s: Self)
        ensures
            s.owner() == list,
            s.start() == start,
            s.len() == len,
    {
        Slice { list: list, start: start, len: len, ty: PhantomData }
    }

    /// Takes a view apart again: its container, its start and its length.
    pub(crate) fn into_parts(self) -> (parts: (&'a K, I, I))
        ensures
            parts.0 == self.owner(),
            parts.1 == self.start(),
            parts.2 == self.len(),
    {
        (self.list, self.start, self.len)
    }
}

impl<'a, K: TakeSlice<T, I>, I: Idx, T> Slice<'a, K, I, T> {
    /// The window lies within its container.
    pub open spec fn wf(&self) -> bool {
        self.start().pos() + self.len().pos() <= self.owner().elems().len()
    }

    /// `r` is what asking the view for position `index` gives: the element
    /// at `start + index` of the container where `index` is below the view's
    /// length, and otherwise the error that names `index` and that length.
    pub open spec fn is_element_at(&self, index: nat, r: Result<&T, SliceError<I>>) -> bool {
        match r {
            Ok(element) => {
                &&& index < self.len().pos()
                &&& *element == self.owner().elems()[(self.start().pos() + index) as int]
            },
            Err(e) => {
                &&& index >= self.len().pos()
                &&& e.is_index_out_of_bounds(index, self.len().pos())
            },
        }
    }

    /// Makes the view of `list` that covers the range `index`, if the range
    /// ends within the container, and gives the error if it does not. A range
    /// that ends within the container must not start beyond its own end.
    pub fn new(list: &'a K, index: Range<I>) -> (r: Result<Slice<'a, K, I, T>, SliceError<I>>)
        requires
            index.end.pos() <= list.elems().len() ==> index.start.pos() <= index.end.pos(),
        ensures
            Self::is_range_of(r, list, list.elems().len(), index.start.pos(), index.end.pos()),
            r matches Ok(s) ==> s.wf(),
    {
        match assert_in_bounds(&index, list.len()) {
            Ok(_) => Ok(Slice::from_parts(list, index.start, index.end.minus(index.start))),
            Err(e) => Err(e),
        }
    }

    /// Turns the view into an iterator over the elements that it covers.
    pub fn iter(self) -> (it: Iter<'a, K, I, T>)
        requires
            self.wf(),
        ensures
            it.wf(),
            it.starts_at(self),
            it.remaining() == self@,
    {
        Iter::new(self)
    }

    /// Returns the element at position `index` of the view, which is the
    /// element at `start + index` of the container.
    ///
    /// The position is checked against the view's own length on every call.
    #[inline]
    pub fn index(&self, index: I) -> (r: Result<&'a T, SliceError<I>>)
        requires
            self.wf(),
        ensures
            self.is_element_at(index.pos(), r),
            r matches Ok(element) ==> *element == self@[index.pos() as int],
    {
        proof {
            self.list.lemma_len_fits();
        }
        if unlikely(!index.less_than(self.len)) {
            Err(SliceError::IndexOutOfBounds { index: index, len: self.len })
        } else {
            Ok(self.list.get(self.start.plus(index)))
        }
    }
}

/// A window into a container through which its elements can be changed:
/// `len` elements from `start` on.
///
/// The view holds the container exclusively for as long as it lives. What the
/// container holds once the view is gone is what the view last saw in it.
pub struct SliceMut<'a, K, I, T> {
    list: &'a mut K,
    start: I,
    len: I,
    ty: PhantomData<T>,
}

impl<'a, K: TakeSlice<T, I>, I: Idx, T> View for SliceMut<'a, K, I, T> {
    type V = Seq<T>;

    /// The elements that the view covers, in order, as they are now.
    open spec fn view(&self) -> Seq<T> {
        self.borrowed().elems().subrange(
            self.start().pos() as int,
            (self.start().pos() + self.len().pos()) as int,
        )
    }
}

impl<'a, K, I: Idx, T> SliceMut<'a, K, I, T> {
    /// The exclusive borrow of the container that the view holds.
    pub closed spec fn borrowed(&self) -> &'a mut K {
        self.list
    }

    /// The position in the container at which the view begins.
    pub closed spec fn start(&self) -> I {
        self.start
    }

    /// The number of elements that the view covers.
    pub closed spec fn len(&self) -> I {
        self.len
    }

    /// The view is the window from position `start` to position `end` of a
    /// container that now is `list`.
    pub open spec fn covers(&self, list: &K, start: nat, end: nat) -> bool {
        &&& *self.borrowed() == *list
        &&& self.start().pos() == start
        &&& self.len().pos() == end - start
    }

    /// `r` is what slicing the positions from `start` to `end` out of a
    /// container that now is `list` and holds `n` elements gives: the view
    /// that covers exactly those positions where `end` is at most `n`, and
    /// otherwise the error that names the range and `n`.
    pub open spec fn is_range_of(
        r: Result<Self, SliceError<I>>,
        list: &K,
        n: nat,
        start: nat,
        end: nat,
    ) -> bool {
        match r {
            Ok(s) => end <= n && s.covers(list, start, end),
            Err(e) => end > n && e.is_range_out_of_bounds(start, end, n),
        }
    }

    /// Once a view is done with, the container keeps what the view last saw.
    ///
    /// A caller that reasons about the container after the view is gone
    /// brings this in with `broadcast use`.
    pub broadcast proof fn lemma_released(self)
        ensures
            #[trigger] has_resolved(self) ==> has_resolved(self.borrowed()),
    {
    }

    /// Puts a view together from its parts. Whether the window lies within
    /// the container is for the caller to have checked.
    pub(crate) fn from_parts(list: &'a mut K, start: I, len: I) -> (s: Self)
        ensures
            *s.borrowed() == *old(list),
            *final(s.borrowed()) == *final(list),
            s.start() == start,
            s.len() == len,
    {
        SliceMut { list: list, start: start, len: len, ty: PhantomData }
    }

    /// Takes a view apart again: its container, its start and its length.
    pub(crate) fn into_parts(self) -> (parts: (&'a mut K, I, I))
        ensures
            *parts.0 == *self.borrowed(),
            *final(parts.0) == *final(self.borrowed()),
            parts.1 == self.start(),
            parts.2 == self.len(),
    {
        (self.list, self.start, self.len)
    }
}

impl<'a, K: TakeSlice<T, I>, I: Idx, T> SliceMut<'a, K, I, T> {
    /// The window lies within its container.
    pub open spec fn wf(&self) -> bool {
        self.start().pos() + self.len().pos() <= self.borrowed().elems().len()
    }

    /// `r` is what asking the view for position `index` gives: the element
    /// at `start + index` of the container where `index` is below the view's
    /// length, and otherwise the error that names `index` and that length.
    pub open spec fn is_element_at(&self, index: nat, r: Result<&T, SliceError<I>>) -> bool {
        match r {
            Ok(element) => {
                &&& index < self.len().pos()
                &&& *element == self.borrowed().elems()[(self.start().pos() + index) as int]
            },
            Err(e) => {
                &&& index >= self.len().pos()
                &&& e.is_index_out_of_bounds(index, self.len().pos())
            },
        }
    }

    /// Makes the view of `list` that covers the range `index`, if the range
    /// ends within the container. If it does not, this gives the error and
    /// leaves the container as it was. A range that ends within the container
    /// must not start beyond its own end.
    pub fn new(list: &'a mut K, index: Range<I>) -> (r: Result<
        SliceMut<'a, K, I, T>,
        SliceError<I>,
    >)
        requires
            index.end.pos() <= old(list).elems().len() ==> index.start.pos() <= index.end.pos(),
        ensures
            Self::is_range_of(
                r,
                old(list),
                old(list).elems().len(),
                index.start.pos(),
                index.end.pos(),
            ),
            match r {
                Ok(s) => s.wf() && *final(s.borrowed()) == *final(list),
                Err(_) => *final(list) == *old(list),
            },
    {
        match assert_in_bounds(&index, list.len()) {
            Ok(_) => Ok(SliceMut::from_parts(list, index.start, index.end.minus(index.start))),
            Err(e) => Err(e),
        }
    }

    /// Turns the view into an iterator over the elements that it covers,
    /// through which they can be changed.
    pub fn iter_mut(self) -> (it: IterMut<'a, K, I, T>)
        requires
            self.wf(),
        ensures
            it.wf(),
            it.starts_at(self),
            it.remaining() == self@,
            *final(it.borrowed()) == *final(self.borrowed()),
    {
        IterMut::new(self)
    }

    /// Returns the element at position `index` of the view, which is the
    /// element at `start + index` of the container.
    ///
    /// The position is checked against the view's own length on every call.
    #[inline]
    pub fn index(&self, index: I) -> (r: Result<&T, SliceError<I>>)
        requires
            self.wf(),
        ensures
            self.is_element_at(index.pos(), r),
            r matches Ok(element) ==> *element == self@[index.pos() as int],
    {
        proof {
            self.list.lemma_len_fits();
        }
        if unlikely(!index.less_than(self.len)) {
            Err(SliceError::IndexOutOfBounds { index: index, len: self.len })
        } else {
            Ok(self.list.get(self.start.plus(index)))
        }
    }

    /// Returns the element at position `index` of the view for writing. A
    /// write through the reference changes that element of the view, and so
    /// the element at `start + index` of the container, and nothing else.
    ///
    /// The position is checked against the view's own length on every call;
    /// where it fails, nothing changes.
    #[inline]
    pub fn index_mut(&mut self, index: I) -> (r: Result<&mut T, SliceError<I>>)
        requires
            old(self).wf(),
        ensures
            final(self).wf(),
            final(self).start() == old(self).start(),
            final(self).len() == old(self).len(),
            *final(final(self).borrowed()) == *final(old(self).borrowed()),
            match r {
                Ok(element) => {
                    &&& index.pos() < old(self).len().pos()
                    &&& *element == old(self)@[index.pos() as int]
                    &&& *element == old(self).borrowed().elems()[(old(self).start().pos()
                        + index.pos()) as int]
                    &&& final(self)@ == old(self)@.update(index.pos() as int, *final(element))
                    &&& final(self).borrowed().elems() == old(self).borrowed().elems().update(
                        (old(self).start().pos() + index.pos()) as int,
                        *final(element),
                    )
                },
                Err(e) => {
                    &&& index.pos() >= old(self).len().pos()
                    &&& e.is_index_out_of_bounds(index.pos(), old(self).len().pos())
                    &&& *final(self).borrowed() == *old(self).borrowed()
                },
            },
    {
        proof {
            self.list.lemma_len_fits();
        }
        if unlikely(!index.less_than(self.len)) {
            Err(SliceError::IndexOutOfBounds { index: index, len: self.len })
        } else {
            Ok(self.list.get_mut(self.start.plus(index)))
        }
    }
}

} // verus!
