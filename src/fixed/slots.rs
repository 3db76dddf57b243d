//! Storage blocks of `N` slots, each either empty or holding one value.
use vstd::prelude::*;

verus! {

/// Slots `[start, end)` hold a value and every other slot is empty.
pub open spec fn occupied_exactly<T>(slots: Seq<Option<T>>, start: int, end: int) -> bool {
    &&& 0 <= start <= end <= slots.len()
    &&& forall|i: int| 0 <= i < slots.len() ==> (#[trigger] slots[i] is Some <==> start <= i < end)
}

/// The values held by slots `[start, end)`, in index order.
pub open spec fn values_in<T>(slots: Seq<Option<T>>, start: int, end: int) -> Seq<T> {
    Seq::new((end - start) as nat, |i: int| slots[start + i]->Some_0)
}

/// How many slots hold a value: the number of values that dropping the
/// block destroys.
pub open spec fn live_count<T>(slots: Seq<Option<T>>) -> nat
    decreases slots.len(),
{
    if slots.len() == 0 {
        0
    } else {
        live_count(slots.drop_last()) + if slots.last() is Some {
            1nat
        } else {
            0nat
        }
    }
}

/// A block whose occupied slots are exactly `[start, end)` holds `end - start`
/// values: dropping it destroys each of them once and nothing else.
pub proof fn lemma_live_count<T>(slots: Seq<Option<T>>, start: int, end: int)
    requires
        occupied_exactly(slots, start, end),
    ensures
        live_count(slots) == end - start,
    decreases slots.len(),
{
    if slots.len() > 0 {
        let rest = slots.drop_last();
        let last = slots.len() - 1;
        if end == slots.len() && start < end {
            assert(occupied_exactly(rest, start, end - 1));
            lemma_live_count(rest, start, end - 1);
        } else if end == slots.len() {
            assert(occupied_exactly(rest, last, last));
            lemma_live_count(rest, last, last);
        } else {
            assert(occupied_exactly(rest, start, end));
            lemma_live_count(rest, start, end);
        }
    }
}

fn vacant<T>(_index: usize) -> (r: Option<T>)
    ensures
        r is None,
{
    None
}

/// Relies on `core::array::from_fn`: slot `i` of the result holds what the
/// given function returns for `i`, here always `None`.
#[verifier::external_body]
pub(crate) fn vacant_slots<T, const N: usize>() -> (r: [Option<T>; N])
    ensures
        forall|i: int| 0 <= i < N ==> (#[trigger] r@[i]) is None,
{
    core::array::from_fn(vacant)
}

} // verus!
