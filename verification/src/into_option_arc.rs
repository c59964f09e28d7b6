use std::sync::Arc;
use vstd::prelude::*;

verus! {

/// The optional contents designated by an optional handle: the value behind
/// the handle, if one is present.
pub open spec fn contents<T>(v: Option<Arc<T>>) -> Option<T> {
    match v {
        Some(a) => Some(*a),
        None => None,
    }
}

/// Normalization of a caller's input into "optional owned handle, ownership
/// transferred": a bare value is wrapped into a fresh allocation, an existing
/// handle or an optional handle passes through unchanged.
pub trait IntoOptionArc<T>: Sized {
    /// The optional contents this input normalizes to.
    spec fn arc_view(self) -> Option<T>;

    /// Turn the input into an optional owned handle with exactly the
    /// contents named by [`Self::arc_view`].
    fn into_option_arc(self) -> (r: Option<Arc<T>>)
        ensures
            contents(r) == self.arc_view(),
    ;
}

impl<T> IntoOptionArc<T> for T {
    open spec fn arc_view(self) -> Option<T> {
        Some(self)
    }

    /// A bare value is wrapped into a freshly allocated block whose
    /// reference count is one, held by the returned handle.
    fn into_option_arc(self) -> (r: Option<Arc<T>>)
        ensures
            contents(r) == Some(self),
    {
        Some(Arc::new(self))
    }
}

impl<T> IntoOptionArc<T> for Arc<T> {
    open spec fn arc_view(self) -> Option<T> {
        Some(*self)
    }

    /// An existing owning handle passes through unchanged: its ownership
    /// unit is the one transferred, and no count moves.
    fn into_option_arc(self) -> (r: Option<Arc<T>>)
        ensures
            equal(r, Some(self)),
    {
        Some(self)
    }
}

impl<T> IntoOptionArc<T> for Option<Arc<T>> {
    open spec fn arc_view(self) -> Option<T> {
        contents(self)
    }

    /// An already-optional handle passes through unchanged.
    fn into_option_arc(self) -> (r: Option<Arc<T>>)
        ensures
            equal(r, self),
    {
        self
    }
}

} // verus!
