//! Concurrent atomic optional reference cells.
//!
//! [`AtomicOptionRef`] is a shared slot holding an optional reference-counted
//! handle to a heap value, readable and replaceable by many threads at once.
//! [`IntoOptionArc`] normalizes the inputs a caller may hand to a cell.

mod into_option_arc;
mod option_ref;
mod ref_;

pub use crate::into_option_arc::contents;
pub use crate::into_option_arc::IntoOptionArc;
pub use crate::option_ref::AtomicOptionRef;
pub use crate::ref_::AtomicRef;
