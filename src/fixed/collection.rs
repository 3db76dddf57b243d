use vstd::prelude::*;

use crate::heap::deque_from_vec;

use super::into_iter::IntoIter;
use super::slots::{lemma_live_count, live_count, occupied_exactly, vacant_slots, values_in};

verus! {

/// The elements of `s` whose entry in `keep` is `true`, in order.
pub open spec fn kept<T>(s: Seq<T>, keep: Seq<bool>) -> Seq<T>
    decreases s.len(),
{
    if s.len() == 0 {
        Seq::empty()
    } else {
        let rest = kept(s.drop_last(), keep.drop_last());
        if keep.last() {
            rest.push(s.last())
        } else {
            rest
        }
    }
}

/// Inserting `v` at `i` into `[a0..a(n-1)]` gives `[a0..a(i-1), v, ai..a(n-1)]`,
/// and removing at `i` gives `[a0..a(i-1), a(i+1)..a(n-1)]`.
pub proof fn lemma_shift_shape<T>(s: Seq<T>, i: int, v: T)
    requires
        0 <= i <= s.len(),
    ensures
        s.insert(i, v) == s.subrange(0, i) + seq![v] + s.subrange(i, s.len() as int),
        i < s.len() ==> s.remove(i) == s.subrange(0, i) + s.subrange(i + 1, s.len() as int),
{
    assert(s.insert(i, v) =~= s.subrange(0, i) + seq![v] + s.subrange(i, s.len() as int));
    if i < s.len() {
        assert(s.remove(i) =~= s.subrange(0, i) + s.subrange(i + 1, s.len() as int));
    }
}

/// Swap-removing at `i` moves the last element into position `i`:
/// `[a0..a(i-1), a(n-1), a(i+1)..a(n-2)]`; at the last position it is the same
/// as popping.
pub proof fn lemma_swap_remove_shape<T>(s: Seq<T>, i: int)
    requires
        0 <= i < s.len(),
    ensures
        i < s.len() - 1 ==> s.update(i, s.last()).drop_last() == s.subrange(0, i) + seq![s.last()]
            + s.subrange(i + 1, s.len() - 1),
        i == s.len() - 1 ==> s.update(i, s.last()).drop_last() == s.drop_last() && s[i] == s.last(),
{
    if i < s.len() - 1 {
        assert(s.update(i, s.last()).drop_last() =~= s.subrange(0, i) + seq![s.last()] + s.subrange(
            i + 1,
            s.len() - 1,
        ));
    } else {
        assert(s.update(i, s.last()).drop_last() =~= s.drop_last());
    }
}

/// A contiguous fixed-size list of elements of type `T`.
///
/// The first `len` slots of `inner` hold the elements in order and the others
/// are empty; the list never allocates.
pub struct Fixed<T, const N: usize> {
    len: u8,
    inner: [Option<T>; N],
}

impl<T, const N: usize> View for Fixed<T, N> {
    type V = Seq<T>;

    /// The elements of the list, front first.
    closed spec fn view(&self) -> Seq<T> {
        values_in(self.inner@, 0, self.len as int)
    }
}

impl<T, const N: usize> Fixed<T, N> {
    /// Exactly the first `len` slots hold a value, and `N` fits in the
    /// byte-wide length.
    pub closed spec fn wf(&self) -> bool {
        &&& N <= u8::MAX
        &&& occupied_exactly(self.inner@, 0, self.len as int)
    }

    /// The storage block that dropping the list releases.
    pub closed spec fn slots(&self) -> Seq<Option<T>> {
        self.inner@
    }

    /// Dropping the list destroys each element once and nothing else: its
    /// block holds one live value per element.
    pub proof fn lemma_drop_destroys_elements(&self)
        requires
            self.wf(),
        ensures
            live_count(self.slots()) == self@.len(),
    {
        lemma_live_count(self.inner@, 0, self.len as int);
    }

    /// A well-formed list holds at most `N` elements, and `N` fits in a byte.
    pub proof fn lemma_bounds(&self)
        requires
            self.wf(),
        ensures
            self@.len() <= N <= u8::MAX,
    {
    }

    /// Constructs a new, empty `Fixed<T, N>`; the capacity must fit in a `u8`.
    pub fn new() -> (r: Self)
        requires
            N <= u8::MAX,
        ensures
            r.wf(),
            r@ == Seq::<T>::empty(),
    {
        let r = Fixed { len: 0, inner: vacant_slots() };
        assert(r@ =~= Seq::<T>::empty());
        r
    }

    /// Returns the total number of elements the list can hold.
    pub fn capacity(&self) -> (r: usize)
        ensures
            r == N,
    {
        N
    }

    /// Returns the number of elements in the list.
    pub fn len(&self) -> (r: usize)
        requires
            self.wf(),
        ensures
            r == self@.len(),
            r <= N,
    {
        self.len as usize
    }

    /// Returns `true` if the list contains no elements.
    pub fn is_empty(&self) -> (r: bool)
        requires
            self.wf(),
        ensures
            r == (self@.len() == 0),
    {
        self.len() == 0
    }

    /// Inserts an element at position `index`, shifting all elements after it
    /// one slot toward the back.
    ///
    /// Hands `value` back in `Err`, leaving the list unchanged, if the list is
    /// full or `index` is past its end.
    pub fn try_insert(&mut self, index: usize, value: T) -> (r: Result<(), T>)
        requires
            old(self).wf(),
        ensures
            final(self).wf(),
            old(self)@.len() < N && index <= old(self)@.len() ==> r is Ok && final(self)@
                == old(self)@.insert(index as int, value),
            !(old(self)@.len() < N && index <= old(self)@.len()) ==> r == Err::<(), T>(value)
                && *final(self) == *old(self),
    {
        let len = self.len();
        if len < self.capacity() && index <= len {
            let mut j: usize = len;
            while j > index
                invariant
                    index <= j <= len < N <= u8::MAX,
                    self.len == old(self).len,
                    self.inner@[j as int] is None,
                    forall|k: int| 0 <= k < j ==> #[trigger] self.inner@[k] == old(self).inner@[k],
                    forall|k: int| j < k <= len ==> #[trigger] self.inner@[k] == old(self).inner@[k - 1],
                    forall|k: int| len < k < N ==> (#[trigger] self.inner@[k]) is None,
                decreases j,
            {
                let moved = self.inner[j - 1].take();
                self.inner[j] = moved;
                j = j - 1;
            }
            self.inner[index] = Some(value);
            self.len = self.len + 1;
            assert(self@ =~= old(self)@.insert(index as int, value));
            Ok(())
        } else {
            Err(value)
        }
    }

    /// Appends an element to the back of the list.
    ///
    /// Hands `value` back in `Err`, leaving the list unchanged, if the list is
    /// full.
    pub fn try_push(&mut self, value: T) -> (r: Result<(), T>)
        requires
            old(self).wf(),
        ensures
            final(self).wf(),
            old(self)@.len() < N ==> r is Ok && final(self)@ == old(self)@.push(value),
            old(self)@.len() == N ==> r == Err::<(), T>(value) && *final(self) == *old(self),
    {
        let len = self.len();
        let r = self.try_insert(len, value);
        assert(old(self)@.insert(len as int, value) =~= old(self)@.push(value));
        r
    }

    /// Removes and returns the element at position `index`, shifting all
    /// elements after it one slot toward the front; `None`, with the list
    /// unchanged, if `index` is out of bounds.
    pub fn try_remove(&mut self, index: usize) -> (r: Option<T>)
        requires
            old(self).wf(),
        ensures
            final(self).wf(),
            index < old(self)@.len() ==> r == Some(old(self)@[index as int]) && final(self)@
                == old(self)@.remove(index as int),
            index >= old(self)@.len() ==> r is None && *final(self) == *old(self),
    {
        let len = self.len();
        if index < len {
            let value = self.inner[index].take();
            let mut j: usize = index;
            while j + 1 < len
                invariant
                    index <= j < len <= N <= u8::MAX,
                    self.len == old(self).len,
                    self.inner@[j as int] is None,
                    forall|k: int| 0 <= k < index ==> #[trigger] self.inner@[k] == old(self).inner@[k],
                    forall|k: int| index <= k < j ==> #[trigger] self.inner@[k] == old(self).inner@[k + 1],
                    forall|k: int| j < k < N ==> #[trigger] self.inner@[k] == old(self).inner@[k],
                decreases len - j,
            {
                let moved = self.inner[j + 1].take();
                self.inner[j] = moved;
                j = j + 1;
            }
            self.len = self.len - 1;
            assert(self@ =~= old(self)@.remove(index as int));
            value
        } else {
            None
        }
    }

    /// Removes the last element and returns it, or `None` if the list is empty.
    pub fn try_pop(&mut self) -> (r: Option<T>)
        requires
            old(self).wf(),
        ensures
            final(self).wf(),
            old(self)@.len() > 0 ==> r == Some(old(self)@.last()) && final(self)@
                == old(self)@.drop_last(),
            old(self)@.len() == 0 ==> r is None && *final(self) == *old(self),
    {
        let len = self.len();
        if len == 0 {
            None
        } else {
            let r = self.try_remove(len - 1);
            assert(old(self)@.remove(len - 1) =~= old(self)@.drop_last());
            r
        }
    }

    /// Removes the element at `index` and returns it, moving the last element
    /// into its place; `None`, with the list unchanged, if `index` is out of
    /// bounds.
    pub fn try_swap_remove(&mut self, index: usize) -> (r: Option<T>)
        requires
            old(self).wf(),
        ensures
            final(self).wf(),
            index < old(self)@.len() ==> r == Some(old(self)@[index as int]) && final(self)@
                == old(self)@.update(index as int, old(self)@.last()).drop_last(),
            index >= old(self)@.len() ==> r is None && *final(self) == *old(self),
    {
        let len = self.len();
        if len == 0 || index > len - 1 {
            return None;
        }
        let last = len - 1;
        if index < last {
            let picked = self.inner[index].take();
            let moved = self.inner[last].take();
            self.inner[index] = moved;
            self.inner[last] = picked;
        }
        assert(self@ =~= old(self)@.update(index as int, old(self)@.last()).update(
            last as int,
            old(self)@[index as int],
        ));
        let r = self.try_remove(last);
        assert(old(self)@.update(index as int, old(self)@.last()).update(
            last as int,
            old(self)@[index as int],
        ).remove(last as int) =~= old(self)@.update(index as int, old(self)@.last()).drop_last());
        r
    }

    /// Clears the list, dropping every element in index order.
    ///
    /// The length is reset before the first element is dropped.
    pub fn clear(&mut self)
        requires
            old(self).wf(),
        ensures
            final(self).wf(),
            final(self)@ == Seq::<T>::empty(),
    {
        let len = self.len();
        self.len = 0;
        let mut i: usize = 0;
        while i < len
            invariant
                i <= len <= N <= u8::MAX,
                self.len == 0,
                forall|k: int| 0 <= k < N ==> (#[trigger] self.inner@[k] is Some <==> i <= k < len),
            decreases len - i,
        {
            self.inner[i] = None;
            i = i + 1;
        }
        assert(self@ =~= Seq::<T>::empty());
    }

    /// Returns a reference to the element at `index`, or `None` if it is out
    /// of bounds.
    pub fn get(&self, index: usize) -> (r: Option<&T>)
        requires
            self.wf(),
        ensures
            index < self@.len() ==> r == Some(&self@[index as int]),
            index >= self@.len() ==> r is None,
    {
        if index < self.len() {
            self.inner[index].as_ref()
        } else {
            None
        }
    }

    /// Returns a mutable reference to the element at `index`, which must be in
    /// bounds; the length cannot change through it.
    pub fn get_mut(&mut self, index: usize) -> (r: &mut T)
        requires
            old(self).wf(),
            index < old(self)@.len(),
        ensures
            *r == old(self)@[index as int],
            final(self).wf(),
            final(self)@ == old(self)@.update(index as int, *final(r)),
    {
        let r = self.inner[index].as_mut().unwrap();
        r
    }

    /// Extracts the initialized region as references to the elements, in order.
    pub fn as_slice(&self) -> (r: Vec<&T>)
        requires
            self.wf(),
        ensures
            r@.len() == self@.len(),
            forall|i: int| 0 <= i < r@.len() ==> *(#[trigger] r@[i]) == self@[i],
    {
        let len = self.len();
        let mut r: Vec<&T> = Vec::with_capacity(len);
        let mut i: usize = 0;
        while i < len
            invariant
                i <= len == self@.len(),
                self.wf(),
                r@.len() == i,
                forall|k: int| 0 <= k < i ==> *(#[trigger] r@[k]) == self@[k],
            decreases len - i,
        {
            match self.inner[i].as_ref() {
                Some(item) => r.push(item),
                None => {},
            }
            i = i + 1;
        }
        r
    }

    /// Creates a list directly from a storage block and a length; exactly the
    /// first `len` slots must hold a value.
    pub fn from_raw_parts(inner: [Option<T>; N], len: u8) -> (r: Self)
        requires
            N <= u8::MAX,
            occupied_exactly(inner@, 0, len as int),
        ensures
            r.wf(),
            r@ == values_in(inner@, 0, len as int),
    {
        Fixed { len, inner }
    }

    /// Decomposes the list into its storage block and its length.
    pub fn into_raw_parts(self) -> (r: ([Option<T>; N], u8))
        requires
            self.wf(),
        ensures
            occupied_exactly(r.0@, 0, r.1 as int),
            values_in(r.0@, 0, r.1 as int) == self@,
    {
        (self.inner, self.len)
    }

    /// Converts the list into a by-value iterator over its elements, front
    /// first.
    pub fn into_iter(self) -> (r: IntoIter<T, N>)
        requires
            self.wf(),
        ensures
            r.wf(),
            r@ == self@,
    {
        let (inner, len) = self.into_raw_parts();
        IntoIter::new_unchecked(inner, 0, len)
    }

    /// Converts the list into a `Vec<T>` with room for `additional` more
    /// elements, moving every element over in order.
    pub fn to_vec_reserve(self, additional: usize) -> (r: Vec<T>)
        requires
            self.wf(),
            self@.len() + additional <= usize::MAX,
        ensures
            r@ == self@,
    {
        let mut vec = Vec::with_capacity(self.len() + additional);
        let ghost all = self@;
        let mut iter = self.into_iter();
        while iter.len() > 0
            invariant
                iter.wf(),
                all == vec@ + iter@,
            decreases iter@.len(),
        {
            match iter.next() {
                Some(item) => vec.push(item),
                None => {},
            }
            assert(all =~= vec@ + iter@);
        }
        assert(vec@ =~= all);
        vec
    }

    /// Appends every element of `items`, in order; they must fit in the
    /// remaining capacity.
    pub fn extend(&mut self, items: Vec<T>)
        requires
            old(self).wf(),
            old(self)@.len() + items@.len() <= N,
        ensures
            final(self).wf(),
            final(self)@ == old(self)@ + items@,
    {
        let ghost start = self@;
        let mut rest = deque_from_vec(items);
        while rest.len() > 0
            invariant
                self.wf(),
                self@.len() + rest@.len() <= N,
                start + items@ == self@ + rest@,
            decreases rest@.len(),
        {
            match rest.pop_front() {
                Some(item) => {
                    let _pushed = self.try_push(item);
                },
                None => {},
            }
            assert(start + items@ =~= self@ + rest@);
        }
        assert(self@ =~= start + items@);
    }

    /// Retains only the elements for which `f` returns `true`, keeping their
    /// order; `f` is called once on each element, front first.
    pub fn retain<F: Fn(&T) -> bool>(&mut self, f: F)
        requires
            old(self).wf(),
            forall|x: &T| f.requires((x,)),
        ensures
            final(self).wf(),
            exists|keep: Seq<bool>|
                {
                    &&& keep.len() == old(self)@.len()
                    &&& forall|i: int|
                        0 <= i < keep.len() ==> f.ensures((&old(self)@[i],), #[trigger] keep[i])
                    &&& final(self)@ == kept(old(self)@, keep)
                },
    {
        let len = self.len();
        let mut w: usize = 0;
        let mut r: usize = 0;
        let ghost mut keep: Seq<bool> = Seq::empty();
        while r < len
            invariant
                w <= r <= len == old(self)@.len() <= N <= u8::MAX,
                forall|x: &T| f.requires((x,)),
                keep.len() == r,
                forall|i: int| 0 <= i < r ==> f.ensures((&old(self)@[i],), #[trigger] keep[i]),
                values_in(self.inner@, 0, w as int) == kept(old(self)@.take(r as int), keep),
                forall|k: int|
                    0 <= k < N ==> (#[trigger] self.inner@[k] is Some <==> (k < w || r <= k < len)),
                forall|k: int| r <= k < N ==> #[trigger] self.inner@[k] == old(self).inner@[k],
            decreases len - r,
        {
            let ghost keep0 = keep;
            let ghost done = old(self)@.take(r + 1);
            assert(done.drop_last() =~= old(self)@.take(r as int));
            let item = self.inner[r].take();
            let ghost before = self.inner@;
            match item {
                Some(value) => {
                    let decision = f(&value);
                    proof {
                        keep = keep.push(decision);
                    }
                    if decision {
                        self.inner[w] = Some(value);
                        assert(values_in(self.inner@, 0, w + 1) =~= values_in(before, 0, w as int).push(value));
                        w = w + 1;
                    } else {
                        assert(values_in(self.inner@, 0, w as int) =~= values_in(before, 0, w as int));
                    }
                },
                None => {},
            }
            assert(keep.drop_last() =~= keep0);
            assert(kept(done, keep) == if keep.last() {
                kept(old(self)@.take(r as int), keep0).push(done.last())
            } else {
                kept(old(self)@.take(r as int), keep0)
            });
            r = r + 1;
        }
        self.len = w as u8;
        assert(old(self)@.take(len as int) =~= old(self)@);
    }
}

impl<T: Clone, const N: usize> Fixed<T, N> {
    /// Returns a list holding a clone of each element, in order.
    pub fn clone(&self) -> (r: Self)
        requires
            self.wf(),
        ensures
            r.wf(),
            r@.len() == self@.len(),
            forall|i: int| 0 <= i < self@.len() ==> cloned(self@[i], #[trigger] r@[i]),
    {
        let len = self.len();
        let mut r = Fixed::new();
        let mut i: usize = 0;
        while i < len
            invariant
                self.wf(),
                r.wf(),
                i <= len == self@.len() <= N,
                r@.len() == i,
                forall|k: int| 0 <= k < i ==> cloned(self@[k], #[trigger] r@[k]),
            decreases len - i,
        {
            let item = self.get(i).unwrap();
            let copy = item.clone();
            let _pushed = r.try_push(copy);
            i = i + 1;
        }
        r
    }
}

} // verus!
