//! What holds of views and iterators, stated over their models.
//!
//! Each law takes the outcomes of the operations that it speaks of as
//! arguments, and assumes of them only what those operations ensure.

use vstd::prelude::*;
use crate::error::SliceError;
use crate::index::Idx;
use crate::iter::Iter;
use crate::slice::Slice;
use crate::take_slice::TakeSlice;

verus! {

/// Slicing a range that lies within the container and then running the
/// iterator of that view to its end yields as many elements as the range is
/// long, and they are the container's elements at the range's positions, in
/// order.
///
/// Here `r` is what `index_range` gave for `[a, b)`, `it` is the iterator
/// that `iter` made of that view, and `items` is what `collect` returned.
pub proof fn lemma_range_iterates_in_order<'a, K: TakeSlice<T, I>, I: Idx, T>(
    list: &'a K,
    a: I,
    b: I,
    r: Result<Slice<'a, K, I, T>, SliceError<I>>,
    it: Iter<'a, K, I, T>,
    items: Seq<&'a T>,
)
    requires
        a.pos() <= b.pos() <= list.elems().len(),
        Slice::is_range_of(r, list, list.elems().len(), a.pos(), b.pos()),
        r matches Ok(s) ==> it.starts_at(s),
        it.yields(items),
    ensures
        r is Ok,
        items.len() == b.pos() - a.pos(),
        forall|k: int|
            0 <= k < b.pos() - a.pos() ==> *(#[trigger] items[k]) == list.elems()[a.pos() + k],
{
}

/// In a view of the range `[a, b)`, the element at a position `i` below
/// `b - a` is the container's element at `a + i`.
///
/// Here `r` is what `index_range` gave for `[a, b)`, and `element` is what
/// `index` gave for `i` on that view.
pub proof fn lemma_element_at_offset<'a, K: TakeSlice<T, I>, I: Idx, T>(
    list: &'a K,
    a: I,
    b: I,
    i: I,
    r: Result<Slice<'a, K, I, T>, SliceError<I>>,
    element: Result<&'a T, SliceError<I>>,
)
    requires
        a.pos() <= b.pos() <= list.elems().len(),
        i.pos() < b.pos() - a.pos(),
        Slice::is_range_of(r, list, list.elems().len(), a.pos(), b.pos()),
        r matches Ok(s) ==> s.is_element_at(i.pos(), element),
    ensures
        r is Ok,
        element matches Ok(e) && *e == list.elems()[(a.pos() + i.pos()) as int],
{
}

/// Slicing a range has one outcome only: two results that both are what
/// slicing the same positions out of the same container gives are equal.
pub proof fn lemma_range_outcome_is_unique<'a, K: TakeSlice<T, I>, I: Idx, T>(
    list: &'a K,
    start: nat,
    end: nat,
    r1: Result<Slice<'a, K, I, T>, SliceError<I>>,
    r2: Result<Slice<'a, K, I, T>, SliceError<I>>,
)
    requires
        Slice::is_range_of(r1, list, list.elems().len(), start, end),
        Slice::is_range_of(r2, list, list.elems().len(), start, end),
    ensures
        r1 == r2,
{
    match (r1, r2) {
        (Ok(s1), Ok(s2)) => {
            I::lemma_pos_injective(s1.start(), s2.start());
            I::lemma_pos_injective(s1.len(), s2.len());
            s1.lemma_same_parts(s2);
        },
        (Err(e1), Err(e2)) => {
            match (e1, e2) {
                (
                    SliceError::RangeOutOfBounds { start: s1, end: e1, len: l1 },
                    SliceError::RangeOutOfBounds { start: s2, end: e2, len: l2 },
                ) => {
                    I::lemma_pos_injective(s1, s2);
                    I::lemma_pos_injective(e1, e2);
                    I::lemma_pos_injective(l1, l2);
                },
                _ => {},
            }
        },
        _ => {},
    }
}

/// Slicing up to `e` is slicing from the first position up to `e`: what
/// `index_range_to` gives for `..e` is what `index_range` gives for
/// `zero..e`, where `zero` is the index at position 0.
pub proof fn lemma_range_to_is_range_from_zero<'a, K: TakeSlice<T, I>, I: Idx, T>(
    list: &'a K,
    zero: I,
    e: I,
    r_to: Result<Slice<'a, K, I, T>, SliceError<I>>,
    r: Result<Slice<'a, K, I, T>, SliceError<I>>,
)
    requires
        zero.pos() == 0,
        Slice::is_range_of(r_to, list, list.elems().len(), 0, e.pos()),
        Slice::is_range_of(r, list, list.elems().len(), zero.pos(), e.pos()),
    ensures
        r_to == r,
{
    lemma_range_outcome_is_unique(list, 0, e.pos(), r_to, r);
}

/// Slicing from `s` on is slicing from `s` up to the container's length:
/// what `index_range_from` gives for `s..` is what `index_range` gives for
/// `s..n`, where `n` is the index that `len` returns.
pub proof fn lemma_range_from_is_range_to_len<'a, K: TakeSlice<T, I>, I: Idx, T>(
    list: &'a K,
    s: I,
    n: I,
    r_from: Result<Slice<'a, K, I, T>, SliceError<I>>,
    r: Result<Slice<'a, K, I, T>, SliceError<I>>,
)
    requires
        n.pos() == list.elems().len(),
        s.pos() <= n.pos(),
        Slice::is_range_of(r_from, list, list.elems().len(), s.pos(), list.elems().len()),
        Slice::is_range_of(r, list, list.elems().len(), s.pos(), n.pos()),
    ensures
        r_from == r,
        r is Ok,
{
    lemma_range_outcome_is_unique(list, s.pos(), n.pos(), r_from, r);
}

/// A range that ends beyond the container's length gives no view, but the
/// error that names the range and the length.
///
/// Here `r` is what `index_range` gave for `[a, b)`.
pub proof fn lemma_range_beyond_len_fails<'a, K: TakeSlice<T, I>, I: Idx, T>(
    list: &'a K,
    a: I,
    b: I,
    r: Result<Slice<'a, K, I, T>, SliceError<I>>,
)
    requires
        b.pos() > list.elems().len(),
        Slice::is_range_of(r, list, list.elems().len(), a.pos(), b.pos()),
    ensures
        r matches Err(SliceError::RangeOutOfBounds { start, end, len }) && start == a && end == b
            && len.pos() == list.elems().len(),
{
    match r {
        Err(SliceError::RangeOutOfBounds { start, end, len }) => {
            I::lemma_pos_injective(start, a);
            I::lemma_pos_injective(end, b);
        },
        _ => {},
    }
}

/// A position that is not below the view's length gives no element, but the
/// error that names the position and the length, whatever the container
/// holds at the position that it would have stood for.
///
/// Here `element` is what `index` gave for `i` on `view`.
pub proof fn lemma_index_beyond_view_fails<'a, K: TakeSlice<T, I>, I: Idx, T>(
    view: Slice<'a, K, I, T>,
    i: I,
    element: Result<&'a T, SliceError<I>>,
)
    requires
        i.pos() >= view.len().pos(),
        view.is_element_at(i.pos(), element),
    ensures
        element == Err::<&'a T, SliceError<I>>(
            SliceError::IndexOutOfBounds { index: i, len: view.len() },
        ),
{
    match element {
        Err(SliceError::IndexOutOfBounds { index, len }) => {
            I::lemma_pos_injective(index, i);
            I::lemma_pos_injective(len, view.len());
        },
        _ => {},
    }
}

} // verus!
