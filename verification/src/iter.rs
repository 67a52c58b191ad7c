//! Forward iterators over views.

use vstd::prelude::*;
use std::marker::PhantomData;
use crate::index::Idx;
use crate::slice::Slice;
use crate::slice::SliceMut;
use crate::take_slice::TakeSlice;

verus! {

/// The iterator for an immutable slice.
///
/// It walks the positions from `cur` up to `end`, one at a time, and cannot
/// be rewound.
pub struct Iter<'a, K, I, T> {
    list: &'a K,
    cur: I,
    end: I,
    ty: PhantomData<T>,
}

impl<'a, K, I: Idx, T> Iter<'a, K, I, T> {
    /// The container that the iterator walks.
    pub closed spec fn owner(&self) -> &'a K {
        self.list
    }

    /// The position of the element that comes next.
    pub closed spec fn cur(&self) -> I {
        self.cur
    }

    /// The position at which the iterator stops.
    pub closed spec fn end(&self) -> I {
        self.end
    }

    /// The iterator stands where `slice` begins and stops where it ends.
    pub open spec fn starts_at(&self, slice: Slice<'a, K, I, T>) -> bool {
        &&& self.owner() == slice.owner()
        &&& self.cur() == slice.start()
        &&& self.end().pos() == slice.start().pos() + slice.len().pos()
    }
}

impl<'a, K: TakeSlice<T, I>, I: Idx, T> Iter<'a, K, I, T> {
    /// The iterator has not passed its end, and its end lies within the
    /// container.
    pub open spec fn wf(&self) -> bool {
        self.cur().pos() <= self.end().pos() <= self.owner().elems().len()
    }

    /// The elements that are still to come, in order.
    pub open spec fn remaining(&self) -> Seq<T> {
        self.owner().elems().subrange(self.cur().pos() as int, self.end().pos() as int)
    }

    /// `items` are references to the elements that are still to come, one for
    /// each and in the same order.
    pub open spec fn yields(&self, items: Seq<&T>) -> bool {
        &&& items.len() == self.remaining().len()
        &&& forall|k: int| 0 <= k < items.len() ==> *(#[trigger] items[k]) == self.remaining()[k]
    }

    /// Makes the iterator over the elements that `slice` covers.
    pub fn new(slice: Slice<'a, K, I, T>) -> (it: Self)
        requires
            slice.wf(),
        ensures
            it.wf(),
            it.starts_at(slice),
            it.remaining() == slice@,
    {
        let (list, start, len) = slice.into_parts();
        proof {
            list.lemma_len_fits();
        }
        Iter { list: list, cur: start, end: start.plus(len), ty: PhantomData }
    }

    /// Yields the element at the current position and steps one position
    /// on; at the end it yields nothing and stays where it is.
    pub fn next(&mut self) -> (r: Option<&'a T>)
        requires
            old(self).wf(),
        ensures
            final(self).wf(),
            final(self).owner() == old(self).owner(),
            final(self).end() == old(self).end(),
            match r {
                Some(element) => {
                    &&& old(self).remaining().len() > 0
                    &&& *element == old(self).remaining()[0]
                    &&& *element == old(self).owner().elems()[old(self).cur().pos() as int]
                    &&& final(self).cur().pos() == old(self).cur().pos() + 1
                    &&& final(self).remaining() == old(self).remaining().skip(1)
                },
                None => {
                    &&& old(self).remaining().len() == 0
                    &&& *final(self) == *old(self)
                },
            },
    {
        if self.cur.equals(self.end) {
            None
        } else {
            proof {
                I::lemma_pos_bounded(self.end);
            }
            let item = self.list.get(self.cur);
            self.cur = self.cur.plus(I::one());
            Some(item)
        }
    }

    /// Runs the iterator to its end and returns what it yields, in order.
    pub fn collect(self) -> (items: Vec<&'a T>)
        requires
            self.wf(),
        ensures
            self.yields(items@),
    {
        let mut it = self;
        let mut items: Vec<&'a T> = Vec::new();
        loop
            invariant
                it.wf(),
                it.owner() == self.owner(),
                it.end() == self.end(),
                self.cur().pos() <= it.cur().pos(),
                items@.len() == it.cur().pos() - self.cur().pos(),
                forall|k: int|
                    0 <= k < items@.len() ==> *(#[trigger] items@[k]) == self.remaining()[k],
            ensures
                it.cur().pos() == self.end().pos(),
            decreases it.end().pos() - it.cur().pos(),
        {
            match it.next() {
                Some(element) => {
                    items.push(element);
                },
                None => {
                    break ;
                },
            }
        }
        items
    }
}

/// The iterator for a mutable slice.
///
/// It walks the positions from `cur` up to `end`, one at a time, and cannot
/// be rewound. It holds the container exclusively; each element that it
/// yields is lent out until the next one is asked for.
pub struct IterMut<'a, K, I, T> {
    list: &'a mut K,
    cur: I,
    end: I,
    ty: PhantomData<T>,
}

impl<'a, K, I: Idx, T> IterMut<'a, K, I, T> {
    /// The exclusive borrow of the container that the iterator holds.
    pub closed spec fn borrowed(&self) -> &'a mut K {
        self.list
    }

    /// The position of the element that comes next.
    pub closed spec fn cur(&self) -> I {
        self.cur
    }

    /// The position at which the iterator stops.
    pub closed spec fn end(&self) -> I {
        self.end
    }

    /// The iterator stands where `slice` begins, stops where it ends, and
    /// sees in the container what `slice` saw.
    pub open spec fn starts_at(&self, slice: SliceMut<'a, K, I, T>) -> bool {
        &&& *self.borrowed() == *slice.borrowed()
        &&& self.cur() == slice.start()
        &&& self.end().pos() == slice.start().pos() + slice.len().pos()
    }

    /// Once an iterator is done with, the container keeps what the iterator
    /// last saw.
    ///
    /// A caller that reasons about the container after the iterator is gone
    /// brings this in with `broadcast use`.
    pub broadcast proof fn lemma_released(self)
        ensures
            #[trigger] has_resolved(self) ==> has_resolved(self.borrowed()),
    {
    }
}

impl<'a, K: TakeSlice<T, I>, I: Idx, T> IterMut<'a, K, I, T> {
    /// The iterator has not passed its end, and its end lies within the
    /// container.
    pub open spec fn wf(&self) -> bool {
        self.cur().pos() <= self.end().pos() <= self.borrowed().elems().len()
    }

    /// The elements that are still to come, in order, as they are now.
    pub open spec fn remaining(&self) -> Seq<T> {
        self.borrowed().elems().subrange(self.cur().pos() as int, self.end().pos() as int)
    }

    /// Makes the iterator over the elements that `slice` covers.
    pub fn new(slice: SliceMut<'a, K, I, T>) -> (it: Self)
        requires
            slice.wf(),
        ensures
            it.wf(),
            it.starts_at(slice),
            it.remaining() == slice@,
            *final(it.borrowed()) == *final(slice.borrowed()),
    {
        let (list, start, len) = slice.into_parts();
        proof {
            list.lemma_len_fits();
        }
        IterMut { list: list, cur: start, end: start.plus(len), ty: PhantomData }
    }

    /// Yields the element at the current position for writing and steps one
    /// position on; at the end it yields nothing and stays where it is.
    ///
    /// A write through the reference changes that element of the container
    /// and nothing else.
    pub fn next(&mut self) -> (r: Option<&mut T>)
        requires
            old(self).wf(),
        ensures
            final(self).wf(),
            final(self).end() == old(self).end(),
            *final(final(self).borrowed()) == *final(old(self).borrowed()),
            match r {
                Some(element) => {
                    &&& old(self).remaining().len() > 0
                    &&& *element == old(self).remaining()[0]
                    &&& *element == old(self).borrowed().elems()[old(self).cur().pos() as int]
                    &&& final(self).cur().pos() == old(self).cur().pos() + 1
                    &&& final(self).remaining() == old(self).remaining().skip(1)
                    &&& final(self).borrowed().elems() == old(self).borrowed().elems().update(
                        old(self).cur().pos() as int,
                        *final(element),
                    )
                },
                None => {
                    &&& old(self).remaining().len() == 0
                    &&& final(self).cur() == old(self).cur()
                    &&& *final(self).borrowed() == *old(self).borrowed()
                },
            },
    {
        if self.cur.equals(self.end) {
            None
        } else {
            proof {
                I::lemma_pos_bounded(self.end);
            }
            let at = self.cur;
            self.cur = self.cur.plus(I::one());
            Some(self.list.get_mut(at))
        }
    }
}

} // verus!
