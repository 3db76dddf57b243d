use vstd::prelude::*;

use super::slots::{lemma_live_count, live_count, occupied_exactly, vacant_slots, values_in};

verus! {

/// A by-value iterator over a block of inline slots, drained from both ends.
///
/// Slots `[start, end)` hold the values not yet yielded and every other slot
/// is empty, so dropping the iterator destroys exactly what it did not yield.
pub struct IntoIter<T, const N: usize> {
    start: u8,
    end: u8,
    inner: [Option<T>; N],
}

impl<T, const N: usize> View for IntoIter<T, N> {
    type V = Seq<T>;

    /// The values still to be yielded, front first.
    closed spec fn view(&self) -> Seq<T> {
        values_in(self.inner@, self.start as int, self.end as int)
    }
}

impl<T, const N: usize> IntoIter<T, N> {
    /// Exactly slots `[start, end)` hold a value, and `N` fits in a byte.
    pub closed spec fn wf(&self) -> bool {
        &&& N <= u8::MAX
        &&& occupied_exactly(self.inner@, self.start as int, self.end as int)
    }

    /// The storage block that dropping the iterator releases.
    pub closed spec fn slots(&self) -> Seq<Option<T>> {
        self.inner@
    }

    /// Dropping the iterator destroys exactly the values it has not yielded:
    /// its block holds one live value per remaining element and no other.
    pub proof fn lemma_drop_destroys_remaining(&self)
        requires
            self.wf(),
        ensures
            live_count(self.slots()) == self@.len(),
    {
        lemma_live_count(self.inner@, self.start as int, self.end as int);
    }

    /// Creates an iterator over slots `[start, end)` of `inner`, which must be
    /// exactly the occupied ones.
    pub fn new_unchecked(inner: [Option<T>; N], start: u8, end: u8) -> (r: Self)
        requires
            N <= u8::MAX,
            occupied_exactly(inner@, start as int, end as int),
        ensures
            r.wf(),
            r@ == values_in(inner@, start as int, end as int),
            r.slots() == inner@,
    {
        IntoIter { start, end, inner }
    }

    /// Creates an iterator which returns no elements.
    pub fn empty() -> (r: Self)
        requires
            N <= u8::MAX,
        ensures
            r.wf(),
            r@ == Seq::<T>::empty(),
    {
        let inner = vacant_slots();
        let r = Self::new_unchecked(inner, 0, 0);
        assert(r@ =~= Seq::<T>::empty());
        r
    }

    /// The number of values still to be yielded.
    pub fn len(&self) -> (r: usize)
        requires
            self.wf(),
        ensures
            r == self@.len(),
    {
        (self.end - self.start) as usize
    }

    /// The exact number of values still to be yielded, as lower and upper bound.
    pub fn size_hint(&self) -> (r: (usize, Option<usize>))
        requires
            self.wf(),
        ensures
            r.0 == self@.len(),
            r.1 == Some(self@.len() as usize),
    {
        let len = self.len();
        (len, Some(len))
    }

    /// Yields the front value, or `None` once the iterator is exhausted.
    pub fn next(&mut self) -> (r: Option<T>)
        requires
            old(self).wf(),
        ensures
            final(self).wf(),
            final(self).slots().len() == N,
            old(self)@.len() > 0 ==> r == Some(old(self)@[0]) && final(self)@ == old(self)@.drop_first(),
            old(self)@.len() == 0 ==> r is None && final(self)@ == old(self)@,
    {
        if self.start >= self.end {
            None
        } else {
            let start = self.start as usize;
            self.start = self.start + 1;
            let r = self.inner[start].take();
            assert(self@ =~= old(self)@.drop_first());
            r
        }
    }

    /// Yields the back value, or `None` once the iterator is exhausted.
    pub fn next_back(&mut self) -> (r: Option<T>)
        requires
            old(self).wf(),
        ensures
            final(self).wf(),
            final(self).slots().len() == N,
            old(self)@.len() > 0 ==> r == Some(old(self)@.last()) && final(self)@ == old(self)@.drop_last(),
            old(self)@.len() == 0 ==> r is None && final(self)@ == old(self)@,
    {
        if self.start >= self.end {
            None
        } else {
            self.end = self.end - 1;
            let end = self.end as usize;
            let r = self.inner[end].take();
            assert(self@ =~= old(self)@.drop_last());
            r
        }
    }

    /// Consumes the iterator, returning the number of values it had left.
    pub fn count(self) -> (r: usize)
        requires
            self.wf(),
        ensures
            r == self@.len(),
    {
        self.len()
    }

    /// Consumes the iterator, returning its back value.
    pub fn last(self) -> (r: Option<T>)
        requires
            self.wf(),
        ensures
            self@.len() > 0 ==> r == Some(self@.last()),
            self@.len() == 0 ==> r is None,
    {
        let mut it = self;
        it.next_back()
    }
}

} // verus!
