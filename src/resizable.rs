//! The list that starts inline and is promoted to the heap on overflow.
mod collection;
mod into_iter;

pub use collection::Resizable;
pub use into_iter::IntoIter;
