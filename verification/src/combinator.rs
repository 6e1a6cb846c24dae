//! The owner-plus-view combinator and its operations.

use crate::stable::{CloneStableAddress, StableAddress};
use std::rc::Rc;
use std::sync::Arc;
use vstd::prelude::*;

verus! {

/// An owner value bundled with a view derived from the data it holds.
///
/// The owner is moved in at construction and never touched again until it is
/// extracted, so its data cannot change while the combinator lives. The view
/// starts as the owner's own dereferenced data and is refined by [`Self::map`].
///
/// The combinator holds nothing besides the owner and the view, so whether it
/// may move to, or be read from, another execution context follows
/// structurally from the owner and view types themselves.
#[derive(Debug)]
pub struct OwningRef<O, T> {
    owner: O,
    reference: T,
}

impl<O, T> OwningRef<O, T> {
    /// The owner held by this combinator.
    pub closed spec fn spec_owner(&self) -> O {
        self.owner
    }

    /// The view currently held by this combinator.
    pub closed spec fn spec_reference(&self) -> T {
        self.reference
    }

    /// A read-only borrow of the owner; the stored view is left undisturbed.
    pub fn owner(&self) -> (r: &O)
        ensures
            *r == self.spec_owner(),
    {
        &self.owner
    }

    /// Consume the combinator, handing back the owner with its data intact.
    /// The narrowed view is discarded.
    pub fn into_inner(self) -> (r: O)
        ensures
            r == self.spec_owner(),
    {
        self.owner
    }
}

impl<O, T: Clone> OwningRef<O, T> where O: StableAddress<Target = T> {
    /// Bundle an owner with its own dereferenced data as the initial view.
    pub fn new(o: O) -> (result: Self)
        ensures
            result.spec_owner() == o,
            cloned::<T>(o.target(), result.spec_reference()),
    {
        let reference = o.deref_target();
        OwningRef { owner: o, reference }
    }
}

impl<O, T> OwningRef<O, T> where O: StableAddress {
    /// Narrow the view: apply a projection to the current view and rebuild
    /// the combinator around the same owner and the projected view.
    ///
    /// The projection receives a read-only borrow of the current view and
    /// hands back a value of its own, so the narrowed view is always derived
    /// from data reachable through the owner. What the projection computes is
    /// stated by its own contract, which this operation passes along.
    pub fn map<U, F: FnOnce(&T) -> U>(self, f: F) -> (result: OwningRef<O, U>)
        requires
            call_requires(f, (&self.spec_reference(),)),
        ensures
            result.spec_owner() == self.spec_owner(),
            call_ensures(f, (&self.spec_reference(),), result.spec_reference()),
    {
        let reference = f(&self.reference);
        OwningRef { owner: self.owner, reference }
    }
}

impl<O, T> core::ops::Deref for OwningRef<O, T> {
    type Target = T;

    /// A read-only borrow of the current view, valid for as long as the
    /// combinator itself.
    fn deref(&self) -> (r: &T)
        ensures
            *r == self.spec_reference(),
    {
        &self.reference
    }
}

impl<O, T: Clone> Clone for OwningRef<O, T> where O: CloneStableAddress {
    /// Duplicate the combinator: the new owner handle shares the stored data
    /// with the original, and the view is carried over.
    fn clone(&self) -> (result: Self)
        ensures
            result.spec_owner() == self.spec_owner(),
            cloned::<T>(self.spec_reference(), result.spec_reference()),
    {
        OwningRef { owner: self.owner.duplicate(), reference: self.reference.clone() }
    }
}

impl<O, T: Clone> From<O> for OwningRef<O, T> where
    O: StableAddress<Target = T>
{
    /// Bundle an owner as [`OwningRef::new`] does.
    fn from(owner: O) -> (ret: Self)
        ensures
            ret.spec_owner() == owner,
            cloned::<T>(owner.target(), ret.spec_reference()),
    {
        OwningRef::new(owner)
    }
}

impl<O, T: Clone> vstd::std_specs::convert::FromSpecImpl<O> for OwningRef<O, T> where
    O: StableAddress<Target = T>
{
    /// `from_spec` would have to give the result as an exact function of the
    /// owner, but capturing the owner's data goes through `Target::clone`,
    /// which need not be a function of its input; the relational contract
    /// stands on `from` itself instead.
    open spec fn obeys_from_spec() -> bool {
        false
    }

    closed spec fn from_spec(owner: O) -> Self {
        OwningRef { owner, reference: arbitrary() }
    }
}

/// A combinator whose owner is an exclusive heap allocation.
pub type BoxRef<T, U = T> = OwningRef<Box<T>, U>;

/// A combinator whose owner is a growable contiguous buffer.
pub type VecRef<T, U = T> = OwningRef<Vec<T>, U>;

/// A combinator whose owner is an owned text buffer.
pub type StringRef = OwningRef<String, String>;

/// A combinator whose owner is a reference-counted shared handle.
pub type RcRef<T, U = T> = OwningRef<Rc<T>, U>;

/// A combinator whose owner is an atomic reference-counted shared handle.
pub type ArcRef<T, U = T> = OwningRef<Arc<T>, U>;

} // verus!
