use crate::into_option_arc::contents;
use crate::into_option_arc::IntoOptionArc;
use std::sync::Arc;
use vstd::prelude::*;
use vstd::rwlock::RwLock;

verus! {

/// Relies on std's `Arc::clone`: the returned handle points to the same
/// allocation as the argument, so the two are equal in ghost code, and the
/// allocation's shared reference count is incremented by one.
#[verifier::external_body]
fn clone_handle<T>(handle: &Arc<T>) -> (r: Arc<T>)
    ensures
        r == *handle,
{
    Arc::clone(handle)
}

/// A shared slot holding an optional reference-counted handle to a heap
/// value, readable and replaceable by many concurrent threads.
///
/// Every slot transition runs inside a critical section of a verified
/// reader-writer lock, which serializes writers against each other and
/// against all readers; the handle a reader takes out carries its own
/// ownership unit, so it stays valid however the slot moves on.
///
/// Each cell is constructed with an invariant over its optional slot value;
/// for the cells built by [`AtomicOptionRef::new`] and
/// [`AtomicOptionRef::from`] the invariant is trivial, while
/// [`AtomicRef`](crate::AtomicRef) builds its inner cell with the invariant
/// that a value is always present.
#[verifier::reject_recursive_types(T)]
pub struct AtomicOptionRef<T> {
    lock: RwLock<Option<Arc<T>>, spec_fn(Option<Arc<T>>) -> bool>,
}

impl<T> AtomicOptionRef<T> {
    /// The invariant the cell's slot value satisfies at every instant,
    /// fixed at construction.
    pub closed spec fn inv(&self, v: Option<Arc<T>>) -> bool {
        self.lock.inv(v)
    }

    /// Whether every optional handle with the given optional contents may be
    /// stored in this cell.
    pub open spec fn accepts(&self, c: Option<T>) -> bool {
        forall|v: Option<Arc<T>>| contents(v) == c ==> #[trigger] self.inv(v)
    }

    /// Creates a cell whose slot invariant is the given predicate, holding
    /// the given initial slot value.
    pub(crate) fn with_inv(
        value: Option<Arc<T>>,
        Ghost(pred): Ghost<spec_fn(Option<Arc<T>>) -> bool>,
    ) -> (s: Self)
        requires
            pred(value),
        ensures
            forall|v: Option<Arc<T>>| #[trigger] s.inv(v) == pred(v),
    {
        AtomicOptionRef { lock: RwLock::new(value, Ghost(pred)) }
    }

    /// Creates a new cell with an empty slot.
    pub fn new() -> (s: Self)
        ensures
            forall|v: Option<Arc<T>>| #[trigger] s.inv(v),
    {
        Self::with_inv(None, Ghost(|v: Option<Arc<T>>| true))
    }

    /// Creates a new cell populated from the given initial value, which may
    /// be a bare value, an owned handle, or an optional owned handle.
    pub fn from<U: IntoOptionArc<T>>(value: U) -> (s: Self)
        ensures
            forall|v: Option<Arc<T>>| #[trigger] s.inv(v),
    {
        Self::with_inv(value.into_option_arc(), Ghost(|v: Option<Arc<T>>| true))
    }

    /// Returns `true` if the slot currently holds a value.
    ///
    /// The answer is advisory: it reports on a slot value the cell held at
    /// some instant during the call, and may be stale as soon as it is
    /// returned. Use [`AtomicOptionRef::load`] to obtain the value itself.
    pub fn is_some(&self) -> (r: bool)
        ensures
            exists|v: Option<Arc<T>>| #[trigger] self.inv(v) && r == (v is Some),
    {
        let guard = self.lock.acquire_read();
        let r = guard.borrow().is_some();
        proof {
            assert(self.inv(guard.view()) && r == (guard.view() is Some));
        }
        guard.release_read();
        r
    }

    /// Loads and returns a handle to the current value, or `None` if the
    /// slot is empty.
    ///
    /// The returned handle carries a freshly incremented ownership unit of
    /// its allocation: it remains valid, and its contents unchanged, however
    /// the slot is mutated afterwards, until the caller releases it.
    pub fn load(&self) -> (r: Option<Arc<T>>)
        ensures
            self.inv(r),
    {
        let guard = self.lock.acquire_read();
        let r = match guard.borrow() {
            Some(handle) => Some(clone_handle(handle)),
            None => None,
        };
        guard.release_read();
        r
    }

    /// Stores the value, releasing the slot's previous contents.
    pub fn store<U: IntoOptionArc<T>>(&self, value: U)
        requires
            self.accepts(value.arc_view()),
    {
        let _ = self.swap(value);
    }

    /// Swaps the value into the slot, returning the slot's previous
    /// contents.
    ///
    /// The incoming handle's ownership unit becomes the slot's unit, and the
    /// unit previously resident in the slot is transferred to the caller
    /// through the returned handle: the caller becomes responsible for
    /// eventually releasing it.
    pub fn swap<U: IntoOptionArc<T>>(&self, value: U) -> (r: Option<Arc<T>>)
        requires
            self.accepts(value.arc_view()),
        ensures
            self.inv(r),
    {
        let incoming = value.into_option_arc();
        proof {
            assert(self.inv(incoming));
        }
        let (prev, write_handle) = self.lock.acquire_write();
        write_handle.release_write(incoming);
        prev
    }
}

impl<T> Drop for AtomicOptionRef<T> {
    /// Releases the ownership unit resident in the slot, if any: the
    /// previous contents are taken out of the lock and dropped, so the
    /// designated value's destructor fires once its last outstanding handle
    /// is gone.
    ///
    /// Relies on `vstd::rwlock::RwLock::acquire_write` and
    /// `WriteHandle::release_write` to exchange the slot's contents for
    /// `None`. The body cannot be verified: a verified `Drop` must neither
    /// unwind nor open invariants, and the lock's operations declare
    /// neither, so Verus is told to trust it. By this point the cell is no
    /// longer shared, hence the lock is free and the exchange returns at
    /// once.
    #[verifier::external_body]
    fn drop(&mut self)
        opens_invariants none
        no_unwind
    {
        let (prev, write_handle) = self.lock.acquire_write();
        write_handle.release_write(None);
        drop(prev);
    }
}

} // verus!
