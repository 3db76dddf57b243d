use vstd::layout::size_of;
use vstd::prelude::*;

use crate::fixed::Fixed;
use crate::heap::{deque_from_vec, heap_capacity, heap_reserve_exact};

use super::into_iter::IntoIter;

verus! {

/// A contiguous resizable list of elements of type `T`.
///
/// It starts with its elements inline in a [`Fixed`] list and moves them to a
/// `Vec` the first time an operation needs more than `N` slots; once on the
/// heap it stays there.
pub enum Resizable<T, const N: usize> {
    Fixed(Fixed<T, N>),
    Heap(Vec<T>),
}

impl<T, const N: usize> View for Resizable<T, N> {
    type V = Seq<T>;

    /// The elements of the list, front first.
    open spec fn view(&self) -> Seq<T> {
        match self {
            Resizable::Fixed(list) => list@,
            Resizable::Heap(list) => list@,
        }
    }
}

/// Moves every element of `list` into a new heap buffer with room for
/// `additional` more, leaving `list` empty.
fn drain_to_heap<T, const N: usize>(list: &mut Fixed<T, N>, additional: usize) -> (r: Vec<T>)
    requires
        old(list).wf(),
        old(list)@.len() + additional <= usize::MAX,
    ensures
        final(list).wf(),
        final(list)@ == Seq::<T>::empty(),
        r@ == old(list)@,
{
    proof {
        list.lemma_bounds();
    }
    let mut donor = Fixed::new();
    core::mem::swap(list, &mut donor);
    donor.to_vec_reserve(additional)
}

/// Promotes an inline list that is full to the heap, then inserts `value` at
/// `index`.
fn heap_insert<T, const N: usize>(list: &mut Fixed<T, N>, index: usize, value: T) -> (r: Resizable<T, N>)
    requires
        old(list).wf(),
        index <= old(list)@.len(),
    ensures
        final(list).wf(),
        r is Heap,
        r@ == old(list)@.insert(index as int, value),
{
    proof {
        list.lemma_bounds();
    }
    let len = list.len();
    let mut heap = drain_to_heap(list, len);
    heap.insert(index, value);
    Resizable::Heap(heap)
}

/// Promotes an inline list that is full to the heap, then appends `value`.
fn heap_push<T, const N: usize>(list: &mut Fixed<T, N>, value: T) -> (r: Resizable<T, N>)
    requires
        old(list).wf(),
    ensures
        final(list).wf(),
        r is Heap,
        r@ == old(list)@.push(value),
{
    proof {
        list.lemma_bounds();
    }
    let len = list.len();
    let mut heap = drain_to_heap(list, len);
    heap.push(value);
    Resizable::Heap(heap)
}

impl<T, const N: usize> Resizable<T, N> {
    /// `N` fits in a byte, and an inline list is well formed.
    pub open spec fn wf(&self) -> bool {
        &&& N <= u8::MAX
        &&& match self {
            Resizable::Fixed(list) => list.wf(),
            Resizable::Heap(_) => true,
        }
    }

    /// The list has been promoted: its elements live in a heap buffer.
    pub open spec fn is_heap(&self) -> bool {
        self is Heap
    }

    /// Constructs a new, empty, inline `Resizable<T, N>`; the capacity must
    /// fit in a `u8`.
    pub fn new() -> (r: Self)
        requires
            N <= u8::MAX,
        ensures
            r.wf(),
            !r.is_heap(),
            r@ == Seq::<T>::empty(),
    {
        Resizable::Fixed(Fixed::new())
    }

    /// Constructs an empty list with room for `capacity` elements: inline if
    /// they fit in `N` slots, else directly on the heap.
    pub fn with_capacity(capacity: usize) -> (r: Self)
        requires
            N <= u8::MAX,
        ensures
            r.wf(),
            r.is_heap() == (capacity > N),
            r@ == Seq::<T>::empty(),
    {
        if capacity <= N {
            Resizable::Fixed(Fixed::new())
        } else {
            Resizable::Heap(Vec::with_capacity(capacity))
        }
    }

    /// Reserves room for at least `additional` more elements. An inline list
    /// without that much headroom is promoted to the heap at once.
    pub fn reserve(&mut self, additional: usize)
        requires
            old(self).wf(),
            old(self)@.len() + additional <= usize::MAX,
        ensures
            final(self).wf(),
            final(self)@ == old(self)@,
            final(self).is_heap() == (old(self).is_heap() || N - old(self)@.len() < additional),
    {
        match self {
            Resizable::Fixed(list) => {
                if list.capacity() - list.len() < additional {
                    let list = drain_to_heap(list, additional);
                    *self = Resizable::Heap(list);
                }
            },
            Resizable::Heap(list) => list.reserve(additional),
        }
    }

    /// Reserves room for exactly `additional` more elements where the heap
    /// buffer allows it. An inline list without that much headroom is
    /// promoted to the heap at once; a heap buffer must stay within
    /// `isize::MAX` bytes.
    pub fn reserve_exact(&mut self, additional: usize)
        requires
            old(self).wf(),
            old(self)@.len() + additional <= usize::MAX,
            old(self).is_heap() ==> (old(self)@.len() + additional) * size_of::<T>() <= isize::MAX,
        ensures
            final(self).wf(),
            final(self)@ == old(self)@,
            final(self).is_heap() == (old(self).is_heap() || N - old(self)@.len() < additional),
    {
        match self {
            Resizable::Fixed(list) => {
                if list.capacity() - list.len() < additional {
                    let list = drain_to_heap(list, additional);
                    *self = Resizable::Heap(list);
                }
            },
            Resizable::Heap(list) => heap_reserve_exact(list, additional),
        }
    }

    /// Returns the number of elements the list can hold without reallocating:
    /// `N` while inline.
    pub fn capacity(&self) -> (r: usize)
        requires
            self.wf(),
        ensures
            !self.is_heap() ==> r == N,
            r >= self@.len(),
    {
        match self {
            Resizable::Fixed(list) => {
                proof {
                    list.lemma_bounds();
                }
                list.capacity()
            },
            Resizable::Heap(list) => heap_capacity(list),
        }
    }

    /// Returns the number of elements in the list.
    pub fn len(&self) -> (r: usize)
        requires
            self.wf(),
        ensures
            r == self@.len(),
    {
        match self {
            Resizable::Fixed(list) => list.len(),
            Resizable::Heap(list) => list.len(),
        }
    }

    /// Returns `true` if the list contains no elements.
    pub fn is_empty(&self) -> (r: bool)
        requires
            self.wf(),
        ensures
            r == (self@.len() == 0),
    {
        match self {
            Resizable::Fixed(list) => list.is_empty(),
            Resizable::Heap(list) => list.is_empty(),
        }
    }

    /// Returns a reference to the element at `index`, or `None` if it is out
    /// of bounds.
    pub fn get(&self, index: usize) -> (r: Option<&T>)
        requires
            self.wf(),
        ensures
            index < self@.len() ==> r == Some(&self@[index as int]),
            index >= self@.len() ==> r is None,
    {
        match self {
            Resizable::Fixed(list) => list.get(index),
            Resizable::Heap(list) => {
                if index < list.len() {
                    Some(&list[index])
                } else {
                    None
                }
            },
        }
    }

    /// Returns a mutable reference to the element at `index`, which must be in
    /// bounds; the length cannot change through it.
    pub fn get_mut(&mut self, index: usize) -> (r: &mut T)
        requires
            old(self).wf(),
            index < old(self)@.len(),
        ensures
            *r == old(self)@[index as int],
            final(self).wf(),
            final(self)@ == old(self)@.update(index as int, *final(r)),
            final(self).is_heap() == old(self).is_heap(),
    {
        match self {
            Resizable::Fixed(list) => list.get_mut(index),
            Resizable::Heap(list) => &mut list[index],
        }
    }

    /// Extracts the elements as references, in order.
    pub fn as_slice(&self) -> (r: Vec<&T>)
        requires
            self.wf(),
        ensures
            r@.len() == self@.len(),
            forall|i: int| 0 <= i < r@.len() ==> *(#[trigger] r@[i]) == self@[i],
    {
        match self {
            Resizable::Fixed(list) => list.as_slice(),
            Resizable::Heap(list) => {
                let len = list.len();
                let mut r: Vec<&T> = Vec::with_capacity(len);
                let mut i: usize = 0;
                while i < len
                    invariant
                        i <= len == list@.len(),
                        r@.len() == i,
                        forall|k: int| 0 <= k < i ==> *(#[trigger] r@[k]) == list@[k],
                    decreases len - i,
                {
                    r.push(&list[i]);
                    i = i + 1;
                }
                r
            },
        }
    }

    /// Clears the list, dropping every element; the representation is kept.
    pub fn clear(&mut self)
        requires
            old(self).wf(),
        ensures
            final(self).wf(),
            final(self)@ == Seq::<T>::empty(),
            final(self).is_heap() == old(self).is_heap(),
    {
        match self {
            Resizable::Fixed(list) => list.clear(),
            Resizable::Heap(list) => list.clear(),
        }
    }

    /// Inserts an element at position `index`, shifting all elements after it
    /// toward the back. A full inline list is promoted to the heap first.
    pub fn insert(&mut self, index: usize, value: T)
        requires
            old(self).wf(),
            index <= old(self)@.len(),
        ensures
            final(self).wf(),
            final(self)@ == old(self)@.insert(index as int, value),
            final(self).is_heap() == (old(self).is_heap() || old(self)@.len() == N),
    {
        match self {
            Resizable::Fixed(list) => {
                proof {
                    list.lemma_bounds();
                }
                match list.try_insert(index, value) {
                    Ok(()) => {},
                    Err(value) => {
                        *self = heap_insert(list, index, value);
                    },
                }
            },
            Resizable::Heap(list) => list.insert(index, value),
        }
    }

    /// Appends an element to the back of the list. A full inline list is
    /// promoted to the heap first.
    pub fn push(&mut self, value: T)
        requires
            old(self).wf(),
        ensures
            final(self).wf(),
            final(self)@ == old(self)@.push(value),
            final(self).is_heap() == (old(self).is_heap() || old(self)@.len() == N),
    {
        match self {
            Resizable::Fixed(list) => {
                proof {
                    list.lemma_bounds();
                }
                match list.try_push(value) {
                    Ok(()) => {},
                    Err(value) => {
                        *self = heap_push(list, value);
                    },
                }
            },
            Resizable::Heap(list) => list.push(value),
        }
    }

    /// Removes and returns the element at position `index`, shifting all
    /// elements after it toward the front. `index` must be in bounds.
    pub fn remove(&mut self, index: usize) -> (r: T)
        requires
            old(self).wf(),
            index < old(self)@.len(),
        ensures
            final(self).wf(),
            r == old(self)@[index as int],
            final(self)@ == old(self)@.remove(index as int),
            final(self).is_heap() == old(self).is_heap(),
    {
        match self {
            Resizable::Fixed(list) => list.try_remove(index).unwrap(),
            Resizable::Heap(list) => list.remove(index),
        }
    }

    /// Removes the last element and returns it, or `None` if the list is empty.
    pub fn pop(&mut self) -> (r: Option<T>)
        requires
            old(self).wf(),
        ensures
            final(self).wf(),
            old(self)@.len() > 0 ==> r == Some(old(self)@.last()) && final(self)@
                == old(self)@.drop_last(),
            old(self)@.len() == 0 ==> r is None && final(self)@ == old(self)@,
            final(self).is_heap() == old(self).is_heap(),
    {
        match self {
            Resizable::Fixed(list) => list.try_pop(),
            Resizable::Heap(list) => list.pop(),
        }
    }

    /// Removes the element at `index` and returns it, moving the last element
    /// into its place. `index` must be in bounds.
    pub fn swap_remove(&mut self, index: usize) -> (r: T)
        requires
            old(self).wf(),
            index < old(self)@.len(),
        ensures
            final(self).wf(),
            r == old(self)@[index as int],
            final(self)@ == old(self)@.update(index as int, old(self)@.last()).drop_last(),
            final(self).is_heap() == old(self).is_heap(),
    {
        match self {
            Resizable::Fixed(list) => list.try_swap_remove(index).unwrap(),
            Resizable::Heap(list) => list.swap_remove(index),
        }
    }

    /// Appends every element of `items`, in order, promoting the list at once
    /// if they do not fit inline.
    pub fn extend(&mut self, items: Vec<T>)
        requires
            old(self).wf(),
            old(self)@.len() + items@.len() <= usize::MAX,
        ensures
            final(self).wf(),
            final(self)@ == old(self)@ + items@,
            final(self).is_heap() == (old(self).is_heap() || N - old(self)@.len() < items@.len()),
    {
        self.reserve(items.len());
        let ghost start = self@;
        let ghost promoted = self.is_heap();
        let mut rest = deque_from_vec(items);
        while rest.len() > 0
            invariant
                self.wf(),
                self.is_heap() == promoted,
                !promoted ==> self@.len() + rest@.len() <= N,
                start + items@ == self@ + rest@,
            decreases rest@.len(),
        {
            match rest.pop_front() {
                Some(item) => self.push(item),
                None => {},
            }
            assert(start + items@ =~= self@ + rest@);
        }
        assert(self@ =~= start + items@);
    }

    /// Converts the list into a by-value iterator over its elements, front
    /// first.
    pub fn into_iter(self) -> (r: IntoIter<T, N>)
        requires
            self.wf(),
        ensures
            r.wf(),
            r@ == self@,
    {
        match self {
            Resizable::Fixed(list) => IntoIter::Fixed(list.into_iter()),
            Resizable::Heap(list) => IntoIter::Heap(deque_from_vec(list)),
        }
    }
}

impl<T: Clone, const N: usize> Resizable<T, N> {
    /// Returns a list holding a clone of each element, in order: inline when
    /// there are fewer than `N`, on the heap otherwise, whatever the
    /// representation of `self`.
    pub fn clone(&self) -> (r: Self)
        requires
            self.wf(),
        ensures
            r.wf(),
            r.is_heap() == (self@.len() >= N),
            r@.len() == self@.len(),
            forall|i: int| 0 <= i < self@.len() ==> cloned(self@[i], #[trigger] r@[i]),
    {
        let len = self.len();
        if len < N {
            let mut list = Fixed::new();
            let mut i: usize = 0;
            while i < len
                invariant
                    self.wf(),
                    list.wf(),
                    i <= len == self@.len() < N,
                    list@.len() == i,
                    forall|k: int| 0 <= k < i ==> cloned(self@[k], #[trigger] list@[k]),
                decreases len - i,
            {
                let item = self.get(i).unwrap();
                let copy = item.clone();
                let _pushed = list.try_push(copy);
                i = i + 1;
            }
            Resizable::Fixed(list)
        } else {
            let mut list: Vec<T> = Vec::with_capacity(len);
            let mut i: usize = 0;
            while i < len
                invariant
                    self.wf(),
                    i <= len == self@.len(),
                    list@.len() == i,
                    forall|k: int| 0 <= k < i ==> cloned(self@[k], #[trigger] list@[k]),
                decreases len - i,
            {
                let item = self.get(i).unwrap();
                list.push(item.clone());
                i = i + 1;
            }
            Resizable::Heap(list)
        }
    }
}

} // verus!
