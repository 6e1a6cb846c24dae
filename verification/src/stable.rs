//! The capability contract an owner type must satisfy before it may anchor a
//! combinator, together with the implementations for the standard owner kinds.

use std::rc::Rc;
use std::sync::Arc;
use vstd::prelude::*;

verus! {

/// Capability contract for owner types.
///
/// An implementor certifies that it dereferences to a well-defined value of
/// [`Self::Target`]: `target` names that value in specifications, and
/// `deref_target` replays the dereference, producing the data as a value. The
/// produced value stands for the owner's stored data, so it may differ from
/// `target` only by what `Target::clone` is allowed to do; for targets whose
/// clone is exact it is the stored data itself.
pub trait StableAddress: Sized {
    /// The type of the data the owner dereferences to.
    type Target: Clone;

    /// The data this owner currently dereferences to.
    spec fn target(&self) -> Self::Target;

    /// Replay the owner's dereference, yielding its data as a value.
    fn deref_target(&self) -> (r: Self::Target)
        ensures
            cloned::<Self::Target>(self.target(), r),
    ;
}

/// Extends [`StableAddress`] for owner types that support cheap duplication
/// which shares, rather than copies, the stored data.
///
/// An implementor certifies that duplicating the owner yields a new handle
/// addressing the very same stored data, so the duplicate dereferences to a
/// value equal to the original's.
pub trait CloneStableAddress: StableAddress + Clone {
    /// Duplicate the owner handle without copying the stored data.
    fn duplicate(&self) -> (r: Self)
        ensures
            r == *self,
    ;
}

/// An exclusive heap allocation dereferences to its boxed payload.
impl<T: Clone> StableAddress for Box<T> {
    type Target = T;

    open spec fn target(&self) -> T {
        **self
    }

    fn deref_target(&self) -> (r: T) {
        (**self).clone()
    }
}

/// A growable buffer dereferences to its whole contents. This is sound as an
/// owner only because the combinator exposes no mutating accessor once the
/// buffer is wrapped, so the contents can never grow or shrink under a view.
impl<T: Clone> StableAddress for Vec<T> {
    type Target = Vec<T>;

    open spec fn target(&self) -> Vec<T> {
        *self
    }

    fn deref_target(&self) -> (r: Vec<T>) {
        self.clone()
    }
}

/// An owned text buffer dereferences to its whole contents, under the same
/// no-mutation-after-wrapping reasoning as the growable buffer.
impl StableAddress for String {
    type Target = String;

    open spec fn target(&self) -> String {
        *self
    }

    fn deref_target(&self) -> (r: String) {
        self.clone()
    }
}

/// Relies on `Rc::clone`: the duplicate is another handle to the same
/// allocation, so it holds the very same data as the original.
#[verifier::external_body]
fn clone_rc<T>(rc: &Rc<T>) -> (r: Rc<T>)
    ensures
        r == *rc,
{
    rc.clone()
}

/// Relies on `Arc::clone`: the duplicate is another handle to the same
/// allocation, so it holds the very same data as the original.
#[verifier::external_body]
fn clone_arc<T>(arc: &Arc<T>) -> (r: Arc<T>)
    ensures
        r == *arc,
{
    arc.clone()
}

/// A reference-counted handle dereferences to the shared payload.
impl<T: Clone> StableAddress for Rc<T> {
    type Target = T;

    open spec fn target(&self) -> T {
        **self
    }

    fn deref_target(&self) -> (r: T) {
        (**self).clone()
    }
}

impl<T: Clone> CloneStableAddress for Rc<T> {
    fn duplicate(&self) -> (r: Self) {
        clone_rc(self)
    }
}

/// An atomic reference-counted handle dereferences to the shared payload.
impl<T: Clone> StableAddress for Arc<T> {
    type Target = T;

    open spec fn target(&self) -> T {
        **self
    }

    fn deref_target(&self) -> (r: T) {
        (**self).clone()
    }
}

impl<T: Clone> CloneStableAddress for Arc<T> {
    fn duplicate(&self) -> (r: Self) {
        clone_arc(self)
    }
}

} // verus!
