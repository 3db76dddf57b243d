use list::resizable::{IntoIter, Resizable};

fn is_heap<T, const N: usize>(list: &Resizable<T, N>) -> bool {
	matches!(list, Resizable::Heap(_))
}

#[test]
fn test_test_push_elements() {
	let mut resizable = Resizable::<u64, 2>::new();

	assert_eq!(resizable.len(), 0);
	resizable.push(1);

	assert_eq!(resizable.len(), 1);
	resizable.push(2);

	assert_eq!(resizable.len(), 2);
	resizable.push(3);

	assert_eq!(resizable.len(), 3);
	resizable.push(4);

	assert_eq!(resizable.as_slice(), &[&1, &2, &3, &4]);
}

#[test]
fn test_test_insert_elements() {
	let mut resizable = Resizable::<u64, 2>::new();

	assert_eq!(resizable.len(), 0);
	resizable.insert(0, 1);

	assert_eq!(resizable.len(), 1);
	resizable.insert(0, 2);

	assert_eq!(resizable.len(), 2);
	resizable.insert(1, 3);

	assert_eq!(resizable.len(), 3);
	resizable.insert(1, 4);

	assert_eq!(resizable.as_slice(), &[&2, &4, &3, &1]);
}

#[test]
fn test_test_pop_elements() {
	let mut resizable = Resizable::<u64, 2>::new();

	resizable.push(1);
	resizable.push(2);
	resizable.push(3);
	resizable.push(4);

	assert_eq!(resizable.pop(), Some(4));
	assert_eq!(resizable.pop(), Some(3));
	assert_eq!(resizable.pop(), Some(2));
	assert_eq!(resizable.pop(), Some(1));
	assert_eq!(resizable.pop(), None);
}

#[test]
fn test_test_remove_elements() {
	let mut resizable = Resizable::<u64, 2>::new();

	resizable.push(1);
	resizable.push(2);
	resizable.push(3);
	resizable.push(4);

	assert_eq!(resizable.remove(1), 2);
	assert_eq!(resizable.remove(1), 3);
	assert_eq!(resizable.remove(0), 1);
	assert_eq!(resizable.remove(0), 4);
}

#[test]
fn test_test_clear() {
	let mut resizable = Resizable::<Box<u64>, 24>::new();

	for index in 0..128 {
		resizable.push(index.into());
	}

	assert_eq!(resizable.len(), 128);

	resizable.clear();

	assert!(resizable.is_empty());
}

#[test]
fn test_test_into_iter() {
	let mut resizable = Resizable::<u64, 2>::new();

	resizable.push(1);
	resizable.push(2);
	resizable.push(3);
	resizable.push(4);

	let mut iter = resizable.into_iter();

	assert_eq!(iter.next(), Some(1));
	assert_eq!(iter.next_back(), Some(4));
	assert_eq!(iter.next(), Some(2));
	assert_eq!(iter.next_back(), Some(3));
	assert_eq!(iter.next(), None);
	assert_eq!(iter.next_back(), None);
}

#[test]
fn overflow_promotes_and_removal_order_matches() {
	let mut resizable = Resizable::<u64, 2>::new();
	for value in 1..=4 {
		resizable.push(value);
	}
	assert!(is_heap(&resizable));
	assert_eq!(resizable.as_slice(), &[&1, &2, &3, &4]);

	assert_eq!(resizable.remove(1), 2);
	assert_eq!(resizable.remove(1), 3);
	assert_eq!(resizable.remove(0), 1);
	assert_eq!(resizable.remove(0), 4);
	assert!(resizable.is_empty());
	assert!(is_heap(&resizable));
}

#[test]
fn promotion_happens_only_past_capacity() {
	let mut resizable = Resizable::<u64, 2>::new();
	resizable.push(1);
	resizable.push(2);
	assert!(!is_heap(&resizable));
	assert_eq!(resizable.capacity(), 2);

	resizable.insert(1, 3);
	assert!(is_heap(&resizable));
	assert_eq!(resizable.as_slice(), &[&1, &3, &2]);
	assert!(resizable.capacity() >= 3);
}

#[test]
fn promoted_list_stays_on_the_heap() {
	let mut resizable = Resizable::<u64, 2>::new();
	for value in 0..3 {
		resizable.push(value);
	}
	assert!(is_heap(&resizable));

	resizable.clear();
	assert!(is_heap(&resizable));
	resizable.push(5);
	assert_eq!(resizable.pop(), Some(5));
	resizable.reserve(0);
	resizable.reserve_exact(1);
	resizable.push(6);
	assert_eq!(resizable.swap_remove(0), 6);
	assert!(is_heap(&resizable));
}

#[test]
fn with_capacity_chooses_the_representation() {
	let small = Resizable::<u64, 4>::with_capacity(4);
	assert!(!is_heap(&small));
	assert_eq!(small.capacity(), 4);

	let large = Resizable::<u64, 4>::with_capacity(5);
	assert!(is_heap(&large));
	assert!(large.capacity() >= 5);
	assert!(large.is_empty());
}

#[test]
fn reserve_promotes_without_inserting() {
	let mut resizable = Resizable::<u64, 4>::new();
	resizable.push(1);
	resizable.push(2);

	resizable.reserve(2);
	assert!(!is_heap(&resizable));

	resizable.reserve(3);
	assert!(is_heap(&resizable));
	assert_eq!(resizable.as_slice(), &[&1, &2]);
	assert!(resizable.capacity() >= 5);
}

#[test]
fn reserve_exact_promotes_and_keeps_elements() {
	let mut resizable = Resizable::<u64, 3>::new();
	resizable.push(7);
	resizable.reserve_exact(3);
	assert!(is_heap(&resizable));
	resizable.reserve_exact(10);
	assert_eq!(resizable.as_slice(), &[&7]);
	assert!(resizable.capacity() >= 11);
}

#[test]
fn swap_remove_in_both_representations() {
	let mut inline = Resizable::<u64, 4>::new();
	inline.extend(vec![1, 2, 3, 4]);
	assert!(!is_heap(&inline));
	assert_eq!(inline.swap_remove(0), 1);
	assert_eq!(inline.as_slice(), &[&4, &2, &3]);

	let mut heap = Resizable::<u64, 2>::new();
	heap.extend(vec![1, 2, 3, 4]);
	assert!(is_heap(&heap));
	assert_eq!(heap.swap_remove(0), 1);
	assert_eq!(heap.as_slice(), &[&4, &2, &3]);
}

#[test]
fn extend_promotes_once_when_items_do_not_fit() {
	let mut resizable = Resizable::<u64, 3>::new();
	resizable.extend(vec![1, 2]);
	assert!(!is_heap(&resizable));
	resizable.extend(vec![3, 4]);
	assert!(is_heap(&resizable));
	assert_eq!(resizable.as_slice(), &[&1, &2, &3, &4]);
}

#[test]
fn get_and_get_mut_in_both_representations() {
	let mut resizable = Resizable::<u64, 2>::new();
	resizable.push(1);
	*resizable.get_mut(0) = 10;
	assert_eq!(resizable.get(0), Some(&10));
	resizable.push(2);
	resizable.push(3);
	*resizable.get_mut(2) = 30;
	assert_eq!(resizable.get(2), Some(&30));
	assert_eq!(resizable.get(3), None);
	assert_eq!(resizable.as_slice(), &[&10, &2, &30]);
}

#[test]
fn inline_iterator_from_a_small_list() {
	let mut resizable = Resizable::<u64, 4>::new();
	resizable.extend(vec![1, 2, 3]);
	let mut iter = resizable.into_iter();
	assert!(matches!(iter, IntoIter::Fixed(_)));
	assert_eq!(iter.size_hint(), (3, Some(3)));
	assert_eq!(iter.next_back(), Some(3));
	assert_eq!(iter.len(), 2);
	assert_eq!(iter.count(), 2);
}

#[test]
fn heap_iterator_keeps_order() {
	let mut resizable = Resizable::<u64, 1>::new();
	resizable.extend(vec![5, 6, 7]);
	let mut iter = resizable.into_iter();
	assert!(matches!(iter, IntoIter::Heap(_)));
	assert_eq!(iter.next(), Some(5));
	assert_eq!(iter.last(), Some(7));
}

#[test]
fn nth_and_nth_back_skip_values() {
	let mut resizable = Resizable::<u64, 8>::new();
	resizable.extend(vec![1, 2, 3, 4, 5, 6]);
	let mut iter = resizable.into_iter();
	assert_eq!(iter.nth(1), Some(2));
	assert_eq!(iter.nth_back(1), Some(5));
	assert_eq!(iter.len(), 2);
	assert_eq!(iter.nth(5), None);
	assert_eq!(iter.len(), 0);
}

#[test]
fn empty_resizable_iterator_yields_nothing() {
	let mut iter = IntoIter::<u64, 2>::empty();
	assert_eq!(iter.len(), 0);
	assert_eq!(iter.next(), None);
	assert_eq!(iter.next_back(), None);
}

#[test]
fn clone_below_capacity_is_inline() {
	let mut heap = Resizable::<String, 2>::new();
	heap.extend(vec!["x".to_string(), "y".to_string(), "z".to_string()]);
	assert!(is_heap(&heap));
	assert_eq!(heap.pop(), Some("z".to_string()));
	assert_eq!(heap.pop(), Some("y".to_string()));

	let copy = heap.clone();
	assert!(!is_heap(&copy));
	assert_eq!(copy.as_slice(), heap.as_slice());
}

#[test]
fn clone_at_capacity_is_on_the_heap() {
	let mut inline = Resizable::<u64, 2>::new();
	inline.push(1);
	inline.push(2);
	assert!(!is_heap(&inline));

	let copy = inline.clone();
	assert!(is_heap(&copy));
	assert_eq!(copy.as_slice(), &[&1, &2]);
}
