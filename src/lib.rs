//! Contiguous lists that keep small element counts off the heap.
//!
//! [`fixed::Fixed`] stores up to `N` elements inline and never allocates;
//! [`resizable::Resizable`] starts inline and moves to a `Vec` the first time
//! its inline capacity is exceeded.
pub mod fixed;
mod heap;
pub mod resizable;
