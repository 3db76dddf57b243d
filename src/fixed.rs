//! The inline list of capacity `N` and its by-value iterator.
mod collection;
mod into_iter;
mod slots;

pub use collection::{kept, lemma_shift_shape, lemma_swap_remove_shape, Fixed};
pub use into_iter::IntoIter;
pub use slots::{live_count, lemma_live_count, occupied_exactly, values_in};
