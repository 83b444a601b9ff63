//! Dynamically scoped variables.
//!
//! A dynamic (or fluid) variable has a value that can be overridden for the
//! extent of a call and is restored when that call ends. [`DynamicCell`] is
//! one such variable: reads observe the innermost binding still in effect,
//! and each binding is undone by releasing the [`DynamicCellGuard`] it hands
//! out, or by scoping it around a closure with [`DynamicCell::set`].
use vstd::prelude::*;

mod cell;

pub use cell::{DynamicCell, DynamicCellGuard};

verus! {

} // verus!
