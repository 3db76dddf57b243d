//! The heap-side collections of std that the lists hand their elements to.
use std::collections::VecDeque;

use vstd::layout::size_of;
use vstd::prelude::*;

verus! {

/// Relies on `From<Vec<T>> for VecDeque<T>`: the deque holds the vector's
/// elements in the same order (std documents that the conversion reuses the
/// vector's buffer).
#[verifier::external_body]
pub(crate) fn deque_from_vec<T>(list: Vec<T>) -> (r: VecDeque<T>)
    ensures
        r@ == list@,
{
    VecDeque::from(list)
}

/// Relies on `Vec::capacity`: std documents that the capacity of a vector is
/// never below its length.
#[verifier::external_body]
pub(crate) fn heap_capacity<T>(list: &Vec<T>) -> (r: usize)
    ensures
        r >= list@.len(),
{
    list.capacity()
}

/// Relies on `Vec::reserve_exact`: reserving leaves the elements as they are.
/// It panics when the new capacity exceeds `isize::MAX` bytes, which
/// `requires` leaves out.
#[verifier::external_body]
pub(crate) fn heap_reserve_exact<T>(list: &mut Vec<T>, additional: usize)
    requires
        (old(list)@.len() + additional) * size_of::<T>() <= isize::MAX,
    ensures
        final(list)@ == old(list)@,
{
    list.reserve_exact(additional)
}

} // verus!
