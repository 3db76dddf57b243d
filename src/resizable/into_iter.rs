use std::collections::VecDeque;

use vstd::prelude::*;

verus! {

/// An iterator that moves out of a [`Resizable`](super::Resizable): it drains
/// the inline slots or the heap buffer, whichever the list had.
pub enum IntoIter<T, const N: usize> {
    Fixed(crate::fixed::IntoIter<T, N>),
    Heap(VecDeque<T>),
}

impl<T, const N: usize> View for IntoIter<T, N> {
    type V = Seq<T>;

    /// The values still to be yielded, front first.
    open spec fn view(&self) -> Seq<T> {
        match self {
            IntoIter::Fixed(it) => it@,
            IntoIter::Heap(items) => items@,
        }
    }
}

impl<T, const N: usize> IntoIter<T, N> {
    /// An inline iterator is well formed; a heap one always is.
    pub open spec fn wf(&self) -> bool {
        match self {
            IntoIter::Fixed(it) => it.wf(),
            IntoIter::Heap(_) => true,
        }
    }

    /// Creates an iterator which returns no elements.
    pub fn empty() -> (r: Self)
        requires
            N <= u8::MAX,
        ensures
            r.wf(),
            r@ == Seq::<T>::empty(),
    {
        IntoIter::Fixed(crate::fixed::IntoIter::empty())
    }

    /// The number of values still to be yielded.
    pub fn len(&self) -> (r: usize)
        requires
            self.wf(),
        ensures
            r == self@.len(),
    {
        match self {
            IntoIter::Fixed(it) => it.len(),
            IntoIter::Heap(items) => items.len(),
        }
    }

    /// The exact number of values still to be yielded, as lower and upper bound.
    pub fn size_hint(&self) -> (r: (usize, Option<usize>))
        requires
            self.wf(),
        ensures
            r.0 == self@.len(),
            r.1 == Some(self@.len() as usize),
    {
        let len = self.len();
        (len, Some(len))
    }

    /// Yields the front value, or `None` once the iterator is exhausted.
    pub fn next(&mut self) -> (r: Option<T>)
        requires
            old(self).wf(),
        ensures
            final(self).wf(),
            old(self)@.len() > 0 ==> r == Some(old(self)@[0]) && final(self)@ == old(self)@.drop_first(),
            old(self)@.len() == 0 ==> r is None && final(self)@ == old(self)@,
    {
        match self {
            IntoIter::Fixed(it) => it.next(),
            IntoIter::Heap(items) => {
                let r = items.pop_front();
                proof {
                    if old(self)@.len() > 0 {
                        assert(old(self)@.subrange(1, old(self)@.len() as int) =~= old(self)@.drop_first());
                    }
                }
                r
            },
        }
    }

    /// Yields the back value, or `None` once the iterator is exhausted.
    pub fn next_back(&mut self) -> (r: Option<T>)
        requires
            old(self).wf(),
        ensures
            final(self).wf(),
            old(self)@.len() > 0 ==> r == Some(old(self)@.last()) && final(self)@ == old(self)@.drop_last(),
            old(self)@.len() == 0 ==> r is None && final(self)@ == old(self)@,
    {
        match self {
            IntoIter::Fixed(it) => it.next_back(),
            IntoIter::Heap(items) => items.pop_back(),
        }
    }

    /// Drops the next `n` values and yields the one after them, if any.
    pub fn nth(&mut self, n: usize) -> (r: Option<T>)
        requires
            old(self).wf(),
        ensures
            final(self).wf(),
            n < old(self)@.len() ==> r == Some(old(self)@[n as int]) && final(self)@
                == old(self)@.subrange(n + 1, old(self)@.len() as int),
            n >= old(self)@.len() ==> r is None && final(self)@ == Seq::<T>::empty(),
    {
        let mut skipped: usize = 0;
        while skipped < n && self.len() > 0
            invariant
                self.wf(),
                skipped <= n,
                skipped <= old(self)@.len(),
                self@ == old(self)@.subrange(skipped as int, old(self)@.len() as int),
            decreases n - skipped,
        {
            self.next();
            skipped = skipped + 1;
        }
        if skipped < n {
            assert(self@ =~= Seq::<T>::empty());
        }
        self.next()
    }

    /// Drops the last `n` values and yields the one before them, if any.
    pub fn nth_back(&mut self, n: usize) -> (r: Option<T>)
        requires
            old(self).wf(),
        ensures
            final(self).wf(),
            n < old(self)@.len() ==> r == Some(old(self)@[old(self)@.len() - 1 - n])
                && final(self)@ == old(self)@.subrange(0, old(self)@.len() - 1 - n),
            n >= old(self)@.len() ==> r is None && final(self)@ == Seq::<T>::empty(),
    {
        let mut skipped: usize = 0;
        while skipped < n && self.len() > 0
            invariant
                self.wf(),
                skipped <= n,
                skipped <= old(self)@.len(),
                self@ == old(self)@.subrange(0, old(self)@.len() - skipped),
            decreases n - skipped,
        {
            self.next_back();
            skipped = skipped + 1;
        }
        if skipped < n {
            assert(self@ =~= Seq::<T>::empty());
        }
        self.next_back()
    }

    /// Consumes the iterator, returning the number of values it had left.
    pub fn count(self) -> (r: usize)
        requires
            self.wf(),
        ensures
            r == self@.len(),
    {
        self.len()
    }

    /// Consumes the iterator, returning its back value.
    pub fn last(self) -> (r: Option<T>)
        requires
            self.wf(),
        ensures
            self@.len() > 0 ==> r == Some(self@.last()),
            self@.len() == 0 ==> r is None,
    {
        let mut it = self;
        it.next_back()
    }
}

} // verus!
