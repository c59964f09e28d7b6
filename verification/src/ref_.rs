use crate::option_ref::AtomicOptionRef;
use std::sync::Arc;
use vstd::prelude::*;

verus! {

/// A shared slot that always holds a reference-counted handle to a heap
/// value.
///
/// The wrapped optional cell is built with the slot invariant that a value
/// is present, so observing an empty slot is statically impossible:
/// [`AtomicRef::load`] and [`AtomicRef::swap`] return a handle directly,
/// with no failure path.
#[verifier::reject_recursive_types(T)]
pub struct AtomicRef<T> {
    inner: AtomicOptionRef<T>,
}

impl<T> AtomicRef<T> {
    /// The inner cell only ever admits occupied slot values.
    #[verifier::type_invariant]
    spec fn always_present(self) -> bool {
        forall|v: Option<Arc<T>>| #[trigger] self.inner.inv(v) <==> (v is Some)
    }

    /// Creates a new atomic reference holding the default value of `T`.
    pub fn new() -> (s: Self) where T: Default {
        Self::from(T::default())
    }

    /// Creates a new atomic reference from the given initial value.
    pub fn from(value: impl Into<Arc<T>>) -> (s: Self) {
        let handle: Arc<T> = value.into();
        AtomicRef {
            inner: AtomicOptionRef::with_inv(
                Some(handle),
                Ghost(|v: Option<Arc<T>>| v is Some),
            ),
        }
    }

    /// Loads and returns a handle to the current value.
    ///
    /// The returned handle carries its own ownership unit: it remains valid,
    /// and its contents unchanged, however the slot is mutated afterwards.
    pub fn load(&self) -> (r: Arc<T>) {
        proof {
            use_type_invariant(self);
        }
        let loaded = self.inner.load();
        loaded.unwrap()
    }

    /// Stores the value, releasing the previous one.
    pub fn store(&self, value: impl Into<Arc<T>>) {
        proof {
            use_type_invariant(self);
        }
        let handle: Arc<T> = value.into();
        self.inner.store(Some(handle));
    }

    /// Swaps the value into the slot, returning the previous one. The caller
    /// becomes responsible for eventually releasing the returned handle.
    pub fn swap(&self, value: impl Into<Arc<T>>) -> (r: Arc<T>) {
        proof {
            use_type_invariant(self);
        }
        let handle: Arc<T> = value.into();
        let prev = self.inner.swap(Some(handle));
        prev.unwrap()
    }
}

} // verus!
